//! The generic ordered tree that the XML ingestion produces: each node has a
//! tag name, an attribute set, concatenated text, and ordered children.

use vstd::prelude::*;
use crate::text::str_eq;

verus! {

/// One attribute of a generic tree node.
#[derive(Debug, PartialEq)]
pub struct XmlAttr {
    pub name: String,
    pub value: String,
}

/// One node of the generic tree.
#[derive(Debug, PartialEq)]
pub struct Xml {
    pub name: String,
    pub text: String,
    pub attrs: Vec<XmlAttr>,
    pub children: Vec<Xml>,
}

/// Index of the first child whose tag is `name`, or -1 if there is none.
pub open spec fn find_child_idx(s: Seq<Xml>, name: Seq<char>) -> int
    decreases s.len(),
{
    if s.len() == 0 {
        -1
    } else if s[0].name@ == name {
        0
    } else {
        let r = find_child_idx(s.drop_first(), name);
        if r < 0 {
            -1
        } else {
            1 + r
        }
    }
}

pub proof fn lemma_find_child_idx(s: Seq<Xml>, name: Seq<char>)
    ensures
        find_child_idx(s, name) == -1 <==> (forall|j: int| 0 <= j < s.len() ==> s[j].name@ != name),
        find_child_idx(s, name) != -1 ==> {
            let r = find_child_idx(s, name);
            &&& 0 <= r < s.len()
            &&& s[r].name@ == name
            &&& forall|j: int| 0 <= j < r ==> s[j].name@ != name
        },
    decreases s.len(),
{
    if s.len() > 0 && s[0].name@ != name {
        lemma_find_child_idx(s.drop_first(), name);
        let rd = find_child_idx(s.drop_first(), name);
        if rd == -1 {
            assert forall|j: int| 0 <= j < s.len() implies s[j].name@ != name by {
                if j > 0 {
                    assert(s.drop_first()[j - 1] == s[j]);
                }
            }
        } else {
            assert(s.drop_first()[rd] == s[rd + 1]);
            assert forall|j: int| 0 <= j < rd + 1 implies s[j].name@ != name by {
                if j > 0 {
                    assert(s.drop_first()[j - 1] == s[j]);
                }
            }
        }
    }
}

/// Index of the first attribute named `name`, or -1 if there is none.
pub open spec fn find_attr_idx(s: Seq<XmlAttr>, name: Seq<char>) -> int
    decreases s.len(),
{
    if s.len() == 0 {
        -1
    } else if s[0].name@ == name {
        0
    } else {
        let r = find_attr_idx(s.drop_first(), name);
        if r < 0 {
            -1
        } else {
            1 + r
        }
    }
}

pub proof fn lemma_find_attr_idx(s: Seq<XmlAttr>, name: Seq<char>)
    ensures
        find_attr_idx(s, name) == -1 <==> (forall|j: int| 0 <= j < s.len() ==> s[j].name@ != name),
        find_attr_idx(s, name) != -1 ==> {
            let r = find_attr_idx(s, name);
            &&& 0 <= r < s.len()
            &&& s[r].name@ == name
            &&& forall|j: int| 0 <= j < r ==> s[j].name@ != name
        },
    decreases s.len(),
{
    if s.len() > 0 && s[0].name@ != name {
        lemma_find_attr_idx(s.drop_first(), name);
        let rd = find_attr_idx(s.drop_first(), name);
        if rd == -1 {
            assert forall|j: int| 0 <= j < s.len() implies s[j].name@ != name by {
                if j > 0 {
                    assert(s.drop_first()[j - 1] == s[j]);
                }
            }
        } else {
            assert(s.drop_first()[rd] == s[rd + 1]);
            assert forall|j: int| 0 <= j < rd + 1 implies s[j].name@ != name by {
                if j > 0 {
                    assert(s.drop_first()[j - 1] == s[j]);
                }
            }
        }
    }
}

/// The node that a path of tag names leads to: at each step, descend into the
/// first child carrying the next tag.
pub open spec fn spec_get(x: Xml, path: Seq<Seq<char>>) -> Option<Xml>
    decreases x,
    via spec_get_decreases
{
    if path.len() == 0 {
        Option::Some(x)
    } else {
        let i = find_child_idx(x.children@, path[0]);
        if i < 0 {
            Option::None
        } else {
            spec_get(x.children@[i], path.drop_first())
        }
    }
}

#[via_fn]
proof fn spec_get_decreases(x: Xml, path: Seq<Seq<char>>) {
    if path.len() != 0 {
        let i = find_child_idx(x.children@, path[0]);
        if i >= 0 {
            lemma_find_child_idx(x.children@, path[0]);
            assert(decreases_to!(x => x.children));
            assert(decreases_to!(x.children => x.children@));
            assert(decreases_to!(x.children@ => x.children@[i]));
        }
    }
}

/// The attribute that `name` denotes, as a spec value.
pub open spec fn spec_attr(x: Xml, name: Seq<char>) -> Option<XmlAttr> {
    let i = find_attr_idx(x.attrs@, name);
    if i < 0 {
        Option::None
    } else {
        Option::Some(x.attrs@[i])
    }
}

/// The view of a path of tag names.
pub open spec fn view_path(p: Seq<&str>) -> Seq<Seq<char>> {
    p.map_values(|s: &str| s@)
}

/// Finds the first child of `children` whose tag is `name`.
pub(crate) fn find_child(children: &Vec<Xml>, name: &str) -> (r: Option<usize>)
    ensures
        match r {
            Option::Some(j) => j < children@.len() && find_child_idx(children@, name@) == j,
            Option::None => find_child_idx(children@, name@) == -1,
        },
{
    let mut j: usize = 0;
    while j < children.len()
        invariant
            j <= children@.len(),
            forall|q: int| 0 <= q < j ==> children@[q].name@ != name@,
        decreases children@.len() - j,
    {
        if str_eq(children[j].name.as_str(), name) {
            proof {
                lemma_find_child_idx(children@, name@);
            }
            return Some(j);
        }
        j = j + 1;
    }
    proof {
        lemma_find_child_idx(children@, name@);
    }
    None
}

impl Xml {
    /// The first attribute with the given name, if any.
    pub fn attr<'a>(&'a self, name: &str) -> (r: Option<&'a XmlAttr>)
        ensures
            match r {
                Option::Some(a) => spec_attr(*self, name@) == Option::Some(*a),
                Option::None => spec_attr(*self, name@) is None,
            },
    {
        let mut j: usize = 0;
        while j < self.attrs.len()
            invariant
                j <= self.attrs@.len(),
                forall|q: int| 0 <= q < j ==> self.attrs@[q].name@ != name@,
            decreases self.attrs@.len() - j,
        {
            if str_eq(self.attrs[j].name.as_str(), name) {
                proof {
                    lemma_find_attr_idx(self.attrs@, name@);
                }
                return Some(&self.attrs[j]);
            }
            j = j + 1;
        }
        proof {
            lemma_find_attr_idx(self.attrs@, name@);
        }
        None
    }

    /// Descends along a path of tag names, taking the first matching child at
    /// each step.
    pub fn get<'a>(&'a self, path: &[&str]) -> (r: Option<&'a Xml>)
        ensures
            match r {
                Option::Some(x) => spec_get(*self, view_path(path@)) == Option::Some(*x),
                Option::None => spec_get(*self, view_path(path@)) is None,
            },
    {
        let ghost vp = view_path(path@);
        let mut cur: &Xml = self;
        let mut k: usize = 0;
        proof {
            assert(vp.skip(0) =~= vp);
        }
        while k < path.len()
            invariant
                k <= path@.len(),
                vp == view_path(path@),
                vp.len() == path@.len(),
                spec_get(*self, vp) == spec_get(*cur, vp.skip(k as int)),
            decreases path@.len() - k,
        {
            let ghost rest = vp.skip(k as int);
            let name: &str = path[k];
            assert(rest[0] == name@);
            match find_child(&cur.children, name) {
                Some(j) => {
                    proof {
                        assert(rest.drop_first() =~= vp.skip(k + 1));
                    }
                    cur = &cur.children[j];
                    k = k + 1;
                },
                None => {
                    assert(spec_get(*self, vp) is None);
                    return None;
                },
            }
        }
        proof {
            assert(vp.skip(k as int) =~= Seq::<Seq<char>>::empty());
        }
        Some(cur)
    }
}

} // verus!
