//! The error taxonomy. Every semantic error carries enough context (role,
//! sprite, block type, offending names) to pinpoint the failing node.

use vstd::prelude::*;

verus! {

/// A malformed-XML fault of the input stream, carrying the reader's own
/// description of the syntax problem.
#[derive(Debug, PartialEq)]
pub struct XmlSyntaxError {
    pub message: String,
}

/// A structural fault of the project document.
#[derive(Debug, PartialEq)]
pub enum ProjectError {
    NoRoot,
    UnnamedRole,
    ValueNotEvaluated { role: String, sprite: Option<String> },
    InvalidJson { reason: String },
    NoRoleContent { role: String },
    NoStageDef { role: String },
    UnnamedGlobal { role: String },
    GlobalNoValue { role: String, name: String },
    GlobalsWithSameName { role: String, name: String },
    UnnamedField { role: String, sprite: String },
    FieldNoValue { role: String, sprite: String, name: String },
    FieldsWithSameName { role: String, sprite: String, name: String },
    ListItemNoValue { role: String, sprite: String },
    BoolNoValue { role: String, sprite: String },
    BoolUnknownValue { role: String, sprite: String, value: String },
    UnnamedSprite { role: String },
    UnknownBlockMetaType { role: String, sprite: String, meta_type: String },
    BlockWithoutType { role: String, sprite: String },
    BlockChildCount { role: String, sprite: String, block_type: String, needed: usize, got: usize },
    BlockMissingOption { role: String, sprite: String, block_type: String },
    BlockOptionUnknown { role: String, sprite: String, block_type: String, got: String },
    InvalidBoolLiteral { role: String, sprite: String },
    NonConstantUpvar { role: String, sprite: String, block_type: String },
}

/// Any terminal parse error.
#[derive(Debug)]
pub enum Error {
    InvalidXml { error: XmlSyntaxError },
    InvalidProject { error: ProjectError },
    NameTransformError { name: String, role: Option<String>, sprite: Option<String> },
    UnknownBlockType { role: String, sprite: String, block_type: String },
    DerefAssignment { role: String, sprite: String },
    UndefinedVariable { role: String, sprite: String, name: String },
    BlockOptionNotConst { role: String, sprite: String, block_type: String },
    BlockOptionNotSelected { role: String, sprite: String, block_type: String },
    GlobalsWithSameTransName { role: String, trans_name: String, names: (String, String) },
    FieldsWithSameTransName {
        role: String,
        sprite: String,
        trans_name: String,
        names: (String, String),
    },
    LocalsWithSameTransName {
        role: String,
        sprite: String,
        trans_name: String,
        names: (String, String),
    },
}

/// A symbol-table fault, before it is attributed to a scope.
#[derive(Debug, PartialEq)]
pub enum SymbolError {
    NameTransformError { name: String },
    ConflictingTrans { trans_name: String, names: (String, String) },
}

// --- ghost views ---

pub enum ProjectErrorV {
    NoRoot,
    UnnamedRole,
    ValueNotEvaluated { role: Seq<char>, sprite: Option<Seq<char>> },
    InvalidJson { reason: Seq<char> },
    NoRoleContent { role: Seq<char> },
    NoStageDef { role: Seq<char> },
    UnnamedGlobal { role: Seq<char> },
    GlobalNoValue { role: Seq<char>, name: Seq<char> },
    GlobalsWithSameName { role: Seq<char>, name: Seq<char> },
    UnnamedField { role: Seq<char>, sprite: Seq<char> },
    FieldNoValue { role: Seq<char>, sprite: Seq<char>, name: Seq<char> },
    FieldsWithSameName { role: Seq<char>, sprite: Seq<char>, name: Seq<char> },
    ListItemNoValue { role: Seq<char>, sprite: Seq<char> },
    BoolNoValue { role: Seq<char>, sprite: Seq<char> },
    BoolUnknownValue { role: Seq<char>, sprite: Seq<char>, value: Seq<char> },
    UnnamedSprite { role: Seq<char> },
    UnknownBlockMetaType { role: Seq<char>, sprite: Seq<char>, meta_type: Seq<char> },
    BlockWithoutType { role: Seq<char>, sprite: Seq<char> },
    BlockChildCount {
        role: Seq<char>,
        sprite: Seq<char>,
        block_type: Seq<char>,
        needed: usize,
        got: usize,
    },
    BlockMissingOption { role: Seq<char>, sprite: Seq<char>, block_type: Seq<char> },
    BlockOptionUnknown { role: Seq<char>, sprite: Seq<char>, block_type: Seq<char>, got: Seq<char> },
    InvalidBoolLiteral { role: Seq<char>, sprite: Seq<char> },
    NonConstantUpvar { role: Seq<char>, sprite: Seq<char>, block_type: Seq<char> },
}

pub enum ErrorV {
    InvalidXml { message: Seq<char> },
    InvalidProject { error: ProjectErrorV },
    NameTransformError { name: Seq<char>, role: Option<Seq<char>>, sprite: Option<Seq<char>> },
    UnknownBlockType { role: Seq<char>, sprite: Seq<char>, block_type: Seq<char> },
    DerefAssignment { role: Seq<char>, sprite: Seq<char> },
    UndefinedVariable { role: Seq<char>, sprite: Seq<char>, name: Seq<char> },
    BlockOptionNotConst { role: Seq<char>, sprite: Seq<char>, block_type: Seq<char> },
    BlockOptionNotSelected { role: Seq<char>, sprite: Seq<char>, block_type: Seq<char> },
    GlobalsWithSameTransName { role: Seq<char>, trans_name: Seq<char>, names: (Seq<char>, Seq<char>) },
    FieldsWithSameTransName {
        role: Seq<char>,
        sprite: Seq<char>,
        trans_name: Seq<char>,
        names: (Seq<char>, Seq<char>),
    },
    LocalsWithSameTransName {
        role: Seq<char>,
        sprite: Seq<char>,
        trans_name: Seq<char>,
        names: (Seq<char>, Seq<char>),
    },
}

pub enum SymbolErrorV {
    NameTransformError { name: Seq<char> },
    ConflictingTrans { trans_name: Seq<char>, names: (Seq<char>, Seq<char>) },
}

pub open spec fn opt_text_v(o: Option<String>) -> Option<Seq<char>> {
    match o {
        Option::Some(s) => Option::Some(s@),
        Option::None => Option::None,
    }
}

pub open spec fn view_proj_error(e: ProjectError) -> ProjectErrorV {
    match e {
        ProjectError::NoRoot => ProjectErrorV::NoRoot,
        ProjectError::UnnamedRole => ProjectErrorV::UnnamedRole,
        ProjectError::ValueNotEvaluated { role, sprite } => ProjectErrorV::ValueNotEvaluated {
            role: role@,
            sprite: opt_text_v(sprite),
        },
        ProjectError::InvalidJson { reason } => ProjectErrorV::InvalidJson { reason: reason@ },
        ProjectError::NoRoleContent { role } => ProjectErrorV::NoRoleContent { role: role@ },
        ProjectError::NoStageDef { role } => ProjectErrorV::NoStageDef { role: role@ },
        ProjectError::UnnamedGlobal { role } => ProjectErrorV::UnnamedGlobal { role: role@ },
        ProjectError::GlobalNoValue { role, name } => ProjectErrorV::GlobalNoValue {
            role: role@,
            name: name@,
        },
        ProjectError::GlobalsWithSameName { role, name } => ProjectErrorV::GlobalsWithSameName {
            role: role@,
            name: name@,
        },
        ProjectError::UnnamedField { role, sprite } => ProjectErrorV::UnnamedField {
            role: role@,
            sprite: sprite@,
        },
        ProjectError::FieldNoValue { role, sprite, name } => ProjectErrorV::FieldNoValue {
            role: role@,
            sprite: sprite@,
            name: name@,
        },
        ProjectError::FieldsWithSameName { role, sprite, name } => ProjectErrorV::FieldsWithSameName {
            role: role@,
            sprite: sprite@,
            name: name@,
        },
        ProjectError::ListItemNoValue { role, sprite } => ProjectErrorV::ListItemNoValue {
            role: role@,
            sprite: sprite@,
        },
        ProjectError::BoolNoValue { role, sprite } => ProjectErrorV::BoolNoValue {
            role: role@,
            sprite: sprite@,
        },
        ProjectError::BoolUnknownValue { role, sprite, value } => ProjectErrorV::BoolUnknownValue {
            role: role@,
            sprite: sprite@,
            value: value@,
        },
        ProjectError::UnnamedSprite { role } => ProjectErrorV::UnnamedSprite { role: role@ },
        ProjectError::UnknownBlockMetaType { role, sprite, meta_type } => {
            ProjectErrorV::UnknownBlockMetaType {
                role: role@,
                sprite: sprite@,
                meta_type: meta_type@,
            }
        },
        ProjectError::BlockWithoutType { role, sprite } => ProjectErrorV::BlockWithoutType {
            role: role@,
            sprite: sprite@,
        },
        ProjectError::BlockChildCount { role, sprite, block_type, needed, got } => {
            ProjectErrorV::BlockChildCount {
                role: role@,
                sprite: sprite@,
                block_type: block_type@,
                needed,
                got,
            }
        },
        ProjectError::BlockMissingOption { role, sprite, block_type } => {
            ProjectErrorV::BlockMissingOption {
                role: role@,
                sprite: sprite@,
                block_type: block_type@,
            }
        },
        ProjectError::BlockOptionUnknown { role, sprite, block_type, got } => {
            ProjectErrorV::BlockOptionUnknown {
                role: role@,
                sprite: sprite@,
                block_type: block_type@,
                got: got@,
            }
        },
        ProjectError::InvalidBoolLiteral { role, sprite } => ProjectErrorV::InvalidBoolLiteral {
            role: role@,
            sprite: sprite@,
        },
        ProjectError::NonConstantUpvar { role, sprite, block_type } => {
            ProjectErrorV::NonConstantUpvar {
                role: role@,
                sprite: sprite@,
                block_type: block_type@,
            }
        },
    }
}

pub open spec fn view_error(e: Error) -> ErrorV {
    match e {
        Error::InvalidXml { error } => ErrorV::InvalidXml { message: error.message@ },
        Error::InvalidProject { error } => ErrorV::InvalidProject {
            error: view_proj_error(error),
        },
        Error::NameTransformError { name, role, sprite } => ErrorV::NameTransformError {
            name: name@,
            role: opt_text_v(role),
            sprite: opt_text_v(sprite),
        },
        Error::UnknownBlockType { role, sprite, block_type } => ErrorV::UnknownBlockType {
            role: role@,
            sprite: sprite@,
            block_type: block_type@,
        },
        Error::DerefAssignment { role, sprite } => ErrorV::DerefAssignment {
            role: role@,
            sprite: sprite@,
        },
        Error::UndefinedVariable { role, sprite, name } => ErrorV::UndefinedVariable {
            role: role@,
            sprite: sprite@,
            name: name@,
        },
        Error::BlockOptionNotConst { role, sprite, block_type } => ErrorV::BlockOptionNotConst {
            role: role@,
            sprite: sprite@,
            block_type: block_type@,
        },
        Error::BlockOptionNotSelected { role, sprite, block_type } => {
            ErrorV::BlockOptionNotSelected {
                role: role@,
                sprite: sprite@,
                block_type: block_type@,
            }
        },
        Error::GlobalsWithSameTransName { role, trans_name, names } => {
            ErrorV::GlobalsWithSameTransName {
                role: role@,
                trans_name: trans_name@,
                names: (names.0@, names.1@),
            }
        },
        Error::FieldsWithSameTransName { role, sprite, trans_name, names } => {
            ErrorV::FieldsWithSameTransName {
                role: role@,
                sprite: sprite@,
                trans_name: trans_name@,
                names: (names.0@, names.1@),
            }
        },
        Error::LocalsWithSameTransName { role, sprite, trans_name, names } => {
            ErrorV::LocalsWithSameTransName {
                role: role@,
                sprite: sprite@,
                trans_name: trans_name@,
                names: (names.0@, names.1@),
            }
        },
    }
}

pub open spec fn view_symbol_error(e: SymbolError) -> SymbolErrorV {
    match e {
        SymbolError::NameTransformError { name } => SymbolErrorV::NameTransformError {
            name: name@,
        },
        SymbolError::ConflictingTrans { trans_name, names } => SymbolErrorV::ConflictingTrans {
            trans_name: trans_name@,
            names: (names.0@, names.1@),
        },
    }
}

} // verus!
