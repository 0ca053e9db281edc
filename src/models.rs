use crate::runner::{string_views, Operation, OperationKind};
use crate::text::{chars_of, contains_exec, contains_text};
use vstd::prelude::*;
use vstd::string::{StrSliceExecFns, StringExecFns};

verus! {

/// A package as listed in a manifest: its name, an optional category and
/// home page, and whether it is a cask.
#[derive(Debug)]
pub struct BrewPackage {
    pub name: String,
    pub category: Option<String>,
    pub url: Option<String>,
    pub cask: Option<bool>,
}

/// How a package stands on this machine, for the selection list.
#[derive(Debug, Clone, Copy, PartialEq, Eq, Structural)]
pub enum BrewPackageState {
    InstalledCask,
    Installed,
    Cask,
    Default,
}

fn clone_opt(s: &Option<String>) -> (r: Option<String>)
    ensures
        r == *s,
{
    match s {
        Some(v) => Some(v.clone()),
        None => None,
    }
}

impl Clone for BrewPackage {
    fn clone(&self) -> (r: Self)
        ensures
            r == *self,
    {
        BrewPackage {
            name: self.name.clone(),
            category: clone_opt(&self.category),
            url: clone_opt(&self.url),
            cask: self.cask,
        }
    }
}

pub open spec fn package_state_of(installed: bool, cask: bool) -> BrewPackageState {
    if installed && cask {
        BrewPackageState::InstalledCask
    } else if installed {
        BrewPackageState::Installed
    } else if cask {
        BrewPackageState::Cask
    } else {
        BrewPackageState::Default
    }
}

/// Classifies a package from whether it is installed and whether it is a cask.
pub fn package_state(installed: bool, cask: bool) -> (r: BrewPackageState)
    ensures
        r == package_state_of(installed, cask),
{
    if installed && cask {
        BrewPackageState::InstalledCask
    } else if installed {
        BrewPackageState::Installed
    } else if cask {
        BrewPackageState::Cask
    } else {
        BrewPackageState::Default
    }
}

pub open spec fn state_text_of(s: BrewPackageState) -> Seq<char> {
    match s {
        BrewPackageState::InstalledCask => "cask installed"@,
        BrewPackageState::Installed => "installed"@,
        BrewPackageState::Cask => "cask"@,
        BrewPackageState::Default => ""@,
    }
}

/// `name`, or `name - [state]` when a state is given.
pub open spec fn formatted_name_of(name: Seq<char>, template: Option<BrewPackageState>) -> Seq<char> {
    match template {
        None => name,
        Some(s) => name + " - ["@ + state_text_of(s) + "]"@,
    }
}

/// The package's name, followed by its state in brackets when one is given.
pub fn format_package_name(value: &BrewPackage, template: Option<BrewPackageState>) -> (r: String)
    ensures
        r@ == formatted_name_of(value.name@, template),
{
    match template {
        None => value.name.clone(),
        Some(s) => {
            let text = match s {
                BrewPackageState::InstalledCask => "cask installed",
                BrewPackageState::Installed => "installed",
                BrewPackageState::Cask => "cask",
                BrewPackageState::Default => "",
            };
            value.name.clone().concat(" - [").concat(text).concat("]")
        },
    }
}

/// Some installed package's name contains `name`.
pub open spec fn is_installed_in(installed: Seq<BrewPackage>, name: Seq<char>) -> bool {
    exists|i: int| 0 <= i < installed.len() && contains_text((#[trigger] installed[i]).name@, name, false)
}

/// Whether `name` occurs in the name of an installed package.
pub fn is_installed(installed: &Vec<BrewPackage>, name: &String) -> (r: bool)
    ensures
        r == is_installed_in(installed@, name@),
{
    let needle = chars_of(name.as_str());
    let mut i: usize = 0;
    while i < installed.len()
        invariant
            0 <= i <= installed@.len(),
            needle@ == name@,
            forall|k: int| 0 <= k < i ==> !contains_text((#[trigger] installed@[k]).name@, name@, false),
        decreases installed@.len() - i,
    {
        let hay = chars_of(installed[i].name.as_str());
        if contains_exec(&hay, &needle, false) {
            assert(contains_text(installed@[i as int].name@, name@, false));
            return true;
        }
        i = i + 1;
    }
    false
}

/// The packages at the chosen indices, in the order chosen.
pub fn select_packages(packages: &Vec<BrewPackage>, selections: &Vec<usize>) -> (r: Vec<BrewPackage>)
    requires
        forall|k: int| 0 <= k < selections@.len() ==> #[trigger] selections@[k] < packages@.len(),
    ensures
        r@.len() == selections@.len(),
        forall|k: int| 0 <= k < selections@.len() ==> #[trigger] r@[k] == packages@[selections@[k] as int],
{
    let mut out: Vec<BrewPackage> = Vec::new();
    let mut k: usize = 0;
    while k < selections.len()
        invariant
            0 <= k <= selections@.len(),
            forall|t: int| 0 <= t < selections@.len() ==> #[trigger] selections@[t] < packages@.len(),
            out@.len() == k,
            forall|t: int| 0 <= t < k ==> #[trigger] out@[t] == packages@[selections@[t] as int],
        decreases selections@.len() - k,
    {
        out.push(packages[selections[k]].clone());
        k = k + 1;
    }
    out
}

/// One operation of `kind` per package, in order; a package is a cask when
/// its `cask` field is present.
pub fn operations_for(packages: &Vec<BrewPackage>, kind: OperationKind) -> (r: Vec<Operation>)
    ensures
        r@.len() == packages@.len(),
        forall|k: int|
            0 <= k < packages@.len() ==> {
                &&& (#[trigger] r@[k]).name == packages@[k].name
                &&& r@[k].kind == kind
                &&& r@[k].cask == packages@[k].cask.is_some()
            },
{
    let mut out: Vec<Operation> = Vec::new();
    let mut k: usize = 0;
    while k < packages.len()
        invariant
            0 <= k <= packages@.len(),
            out@.len() == k,
            forall|t: int|
                0 <= t < k ==> {
                    &&& (#[trigger] out@[t]).name == packages@[t].name
                    &&& out@[t].kind == kind
                    &&& out@[t].cask == packages@[t].cask.is_some()
                },
        decreases packages@.len() - k,
    {
        out.push(Operation { name: packages[k].name.clone(), kind, cask: packages[k].cask.is_some() });
        k = k + 1;
    }
    out
}

} // verus!

verus! {

/// The pieces of `s` between line feeds; always at least one.
pub open spec fn pieces_of(s: Seq<char>) -> Seq<Seq<char>>
    decreases s.len(),
{
    if s.len() == 0 {
        seq![Seq::empty()]
    } else if s.last() == '\n' {
        pieces_of(s.drop_last()).push(Seq::empty())
    } else {
        let p = pieces_of(s.drop_last());
        p.update(p.len() - 1, p.last().push(s.last()))
    }
}

/// A line without the carriage return that ended it.
pub open spec fn strip_cr(l: Seq<char>) -> Seq<char> {
    if l.len() > 0 && l.last() == '\r' {
        l.drop_last()
    } else {
        l
    }
}

/// The lines of `s`: every piece ended by a line feed, without a carriage
/// return before it, then the last piece when it is not empty.
pub open spec fn lines_of(s: Seq<char>) -> Seq<Seq<char>> {
    let p = pieces_of(s);
    p.drop_last().map_values(|l: Seq<char>| strip_cr(l)) + if p.last().len() == 0 {
        Seq::<Seq<char>>::empty()
    } else {
        seq![p.last()]
    }
}

fn line_between(text: &str, cs: &Vec<char>, start: usize, end: usize, ended: bool) -> (r: String)
    requires
        cs@ == text@,
        start <= end <= cs@.len(),
    ensures
        r@ == (if ended {
            strip_cr(text@.subrange(start as int, end as int))
        } else {
            text@.subrange(start as int, end as int)
        }),
{
    let stop = if ended && end > start && cs[end - 1] == '\r' {
        end - 1
    } else {
        end
    };
    let r = String::from_str(text.substring_char(start, stop));
    proof {
        if stop < end {
            assert(text@.subrange(start as int, end as int).drop_last() =~= text@.subrange(start as int, stop as int));
        }
    }
    r
}

/// The packages named by the lines of a listing, one per line, in order,
/// with no category, address or cask flag.
pub fn parse_installed_list(output: &str) -> (r: Vec<BrewPackage>)
    ensures
        r@.len() == lines_of(output@).len(),
        forall|k: int|
            0 <= k < r@.len() ==> {
                &&& (#[trigger] r@[k]).name@ == lines_of(output@)[k]
                &&& r@[k].category is None
                &&& r@[k].url is None
                &&& r@[k].cask is None
            },
{
    let cs = chars_of(output);
    let ghost s = output@;
    let n = cs.len();
    let mut names: Vec<String> = Vec::new();
    let mut start: usize = 0;
    let mut i: usize = 0;
    proof {
        assert(s.take(0) =~= Seq::<char>::empty());
    }
    while i < n
        invariant
            cs@ == s,
            s == output@,
            n == s.len(),
            0 <= start <= i <= n,
            pieces_of(s.take(i as int)).len() >= 1,
            string_views(names@) == pieces_of(s.take(i as int)).drop_last().map_values(|l: Seq<char>| strip_cr(l)),
            pieces_of(s.take(i as int)).last() == s.subrange(start as int, i as int),
        decreases n - i,
    {
        let ghost t = s.take(i + 1);
        let ghost p = pieces_of(s.take(i as int));
        proof {
            assert(t.drop_last() =~= s.take(i as int));
            assert(t.last() == s[i as int]);
        }
        if cs[i] == '\n' {
            let ghost before = names@;
            names.push(line_between(output, &cs, start, i, true));
            proof {
                assert(pieces_of(t) == p.push(Seq::empty()));
                assert(pieces_of(t).drop_last() =~= p);
                assert(p =~= p.drop_last().push(p.last()));
                assert(string_views(names@) =~= string_views(before).push(strip_cr(s.subrange(start as int, i as int))));
                assert(string_views(names@) =~= pieces_of(t).drop_last().map_values(|l: Seq<char>| strip_cr(l)));
                assert(s.subrange(i + 1, i + 1) =~= Seq::<char>::empty());
            }
            start = i + 1;
        } else {
            proof {
                let q = p.update(p.len() - 1, p.last().push(s[i as int]));
                assert(pieces_of(t) == q);
                assert(q.drop_last() =~= p.drop_last());
                assert(q.last() =~= s.subrange(start as int, i + 1));
            }
        }
        i = i + 1;
    }
    proof {
        assert(s.take(n as int) =~= s);
    }
    let ghost p = pieces_of(s);
    if start < n {
        let ghost before = names@;
        names.push(line_between(output, &cs, start, n, false));
        proof {
            assert(string_views(names@) =~= string_views(before).push(p.last()));
            assert(string_views(names@) =~= lines_of(s));
        }
    } else {
        proof {
            assert(p.last().len() == 0);
            assert(string_views(names@) =~= lines_of(s));
        }
    }
    let mut out: Vec<BrewPackage> = Vec::new();
    let mut k: usize = 0;
    while k < names.len()
        invariant
            0 <= k <= names@.len(),
            string_views(names@) == lines_of(s),
            s == output@,
            out@.len() == k,
            forall|t: int|
                0 <= t < k ==> {
                    &&& (#[trigger] out@[t]).name@ == lines_of(s)[t]
                    &&& out@[t].category is None
                    &&& out@[t].url is None
                    &&& out@[t].cask is None
                },
        decreases names@.len() - k,
    {
        assert(names@[k as int]@ == string_views(names@)[k as int]);
        out.push(BrewPackage { name: names[k].clone(), category: None, url: None, cask: None });
        k = k + 1;
    }
    out
}

} // verus!
