//! The URL-transformation strategies. Each strategy carries a base-URL
//! template and turns an argument string into a final URL; several branch
//! on small fixed alias tables, and only some branches percent-encode
//! their result — that asymmetry is part of the behavioural contract.
use vstd::prelude::*;
use vstd::string::{StrSliceExecFns, StringExecFns};

use crate::encode::{encode, encoded};
use crate::strutil::{
    contains_char, find_space, first_space, str_eq, trim_start, trim_start_spec,
};

verus! {

/// A URL transformation scheme; each variant holds its base-URL template.
///
/// The variant names come from the sites they apply to, but the rules are
/// generic: append, append-if, or substitute into a template.
#[derive(Clone, Copy)]
pub enum HopType {
    Basic(&'static str),
    Dashboard(&'static str),
    Kanban(&'static str),
    GitLab(&'static str),
    Jira(&'static str),
    OfficeSpace(&'static str),
    Proctor(&'static str),
    Runbook(&'static str),
    Sandbox(&'static str),
    SourceGraph(&'static str),
    Workday(&'static str),
}

/// The mathematical model of a strategy: the same variants over the view
/// of the base-URL template.
pub enum HopModel {
    Basic(Seq<char>),
    Dashboard(Seq<char>),
    Kanban(Seq<char>),
    GitLab(Seq<char>),
    Jira(Seq<char>),
    OfficeSpace(Seq<char>),
    Proctor(Seq<char>),
    Runbook(Seq<char>),
    Sandbox(Seq<char>),
    SourceGraph(Seq<char>),
    Workday(Seq<char>),
}

impl View for HopType {
    type V = HopModel;

    open spec fn view(&self) -> HopModel {
        match *self {
            HopType::Basic(w) => HopModel::Basic(w@),
            HopType::Dashboard(w) => HopModel::Dashboard(w@),
            HopType::Kanban(w) => HopModel::Kanban(w@),
            HopType::GitLab(w) => HopModel::GitLab(w@),
            HopType::Jira(w) => HopModel::Jira(w@),
            HopType::OfficeSpace(w) => HopModel::OfficeSpace(w@),
            HopType::Proctor(w) => HopModel::Proctor(w@),
            HopType::Runbook(w) => HopModel::Runbook(w@),
            HopType::Sandbox(w) => HopModel::Sandbox(w@),
            HopType::SourceGraph(w) => HopModel::SourceGraph(w@),
            HopType::Workday(w) => HopModel::Workday(w@),
        }
    }
}

/// The dashboard alias table: short key to dashboard path fragment.
pub open spec fn dash_alias_spec(k: Seq<char>) -> Option<Seq<char>> {
    if k == "ids"@ {
        Some("9bk-z3t-ikj/identity-service-slo-dashboard"@)
    } else if k == "passp"@ {
        Some("xzb-gkq-rst/passport-webapp-slo-dashboard"@)
    } else {
        None
    }
}

/// The board alias table: short key to rapid-board id and filter.
pub open spec fn kanban_alias_spec(k: Seq<char>) -> Option<Seq<char>> {
    if k == "passp"@ {
        Some("1640&quickFilter=24126"@)
    } else {
        None
    }
}

/// The runbook alias table: short key to wiki path fragment.
pub open spec fn runbook_alias_spec(k: Seq<char>) -> Option<Seq<char>> {
    if k == "passp"@ {
        Some("display/PASS/Passport+Runbook"@)
    } else {
        None
    }
}

/// Look a key up in the dashboard alias table.
pub fn dash_alias(k: &str) -> (r: Option<&'static str>)
    ensures
        r is Some <==> dash_alias_spec(k@) is Some,
        r is Some ==> r->0@ == dash_alias_spec(k@)->0,
{
    if str_eq(k, "ids") {
        Some("9bk-z3t-ikj/identity-service-slo-dashboard")
    } else if str_eq(k, "passp") {
        Some("xzb-gkq-rst/passport-webapp-slo-dashboard")
    } else {
        None
    }
}

/// Look a key up in the board alias table.
pub fn kanban_alias(k: &str) -> (r: Option<&'static str>)
    ensures
        r is Some <==> kanban_alias_spec(k@) is Some,
        r is Some ==> r->0@ == kanban_alias_spec(k@)->0,
{
    if str_eq(k, "passp") {
        Some("1640&quickFilter=24126")
    } else {
        None
    }
}

/// Look a key up in the runbook alias table.
pub fn runbook_alias(k: &str) -> (r: Option<&'static str>)
    ensures
        r is Some <==> runbook_alias_spec(k@) is Some,
        r is Some ==> r->0@ == runbook_alias_spec(k@)->0,
{
    if str_eq(k, "passp") {
        Some("display/PASS/Passport+Runbook")
    } else {
        None
    }
}

/// The recognized search-flag prefixes of the SourceGraph strategy.
pub open spec fn sg_flag(c: Seq<char>) -> bool {
    c == "re"@ || c == "rec"@ || c == "sl"@ || c == "slc"@ || c == "st"@ || c == "stc"@
}

/// The pattern type named by the first two characters of a flag word;
/// a flag shorter than two characters defaults to a literal pattern.
pub open spec fn sg_pattern(flags: Seq<char>) -> Seq<char> {
    if flags.len() < 2 {
        "literal"@
    } else if flags.take(2) == "re"@ {
        "regexp"@
    } else if flags.take(2) == "sl"@ {
        "literal"@
    } else if flags.take(2) == "st"@ {
        "structural"@
    } else {
        "literal"@
    }
}

/// Whether a flag word asks for a case-sensitive search: an explicit `c`
/// in third position, or a structural pattern.
pub open spec fn sg_case(flags: Seq<char>) -> bool {
    (flags.len() == 3 && flags[2] == 'c') || sg_pattern(flags) == "structural"@
}

/// The SourceGraph rule: a leading recognized flag word selects pattern
/// type and case sensitivity for the rest; otherwise the whole argument
/// is a literal query.
pub open spec fn sg_spec(w: Seq<char>, a: Seq<char>) -> Seq<char> {
    let off = if first_space(a) == a.len() {
        0
    } else {
        first_space(a)
    };
    let cand = a.take(off);
    if !sg_flag(cand) {
        encoded(w + "search?q="@ + a + "&patternType=literal"@)
    } else {
        encoded(
            w + "search?q="@ + trim_start_spec(a.skip(off)) + "&patternType="@ + sg_pattern(cand)
                + "&case="@ + (if sg_case(cand) {
                "true"@
            } else {
                "false"@
            }),
        )
    }
}

/// The URL a strategy produces for an argument string, per variant.
pub open spec fn apply_spec(h: HopModel, a: Seq<char>) -> Seq<char> {
    match h {
        HopModel::Basic(w) => encoded(w + a),
        HopModel::Dashboard(w) => if dash_alias_spec(a) is Some {
            w + "dashboard/"@ + dash_alias_spec(a)->0
        } else {
            encoded(w + "lists?q="@ + a)
        },
        HopModel::Kanban(w) => if kanban_alias_spec(a) is Some {
            w + "secure/RapidBoard.jspa?rapidView="@ + kanban_alias_spec(a)->0
        } else {
            w + "secure/RapidBoard.jspa"@
        },
        HopModel::GitLab(w) => if exists|i: int| 0 <= i < a.len() && a[i] == '/' {
            w + a
        } else {
            encoded(w + "search?utf8=\u{2713}&search="@ + a)
        },
        HopModel::Jira(w) => if a == "create"@ || a == "new"@ {
            w + "secure/CreateIssue!default.jspa"@
        } else if a.len() > 0 {
            w + "browse/"@ + a
        } else {
            w + "issues/?filter=-1"@
        },
        HopModel::OfficeSpace(w) => if a.len() > 0 {
            encoded(w + "visual-directory/search/"@ + a)
        } else {
            w + "portal"@
        },
        HopModel::Proctor(w) => if a.len() > 0 {
            encoded(w + "definition/"@ + a)
        } else {
            w
        },
        HopModel::Runbook(w) => if runbook_alias_spec(a) is Some {
            w + runbook_alias_spec(a)->0
        } else {
            w
        },
        HopModel::Sandbox(w) => "https://"@ + a + "."@ + w,
        HopModel::SourceGraph(w) => sg_spec(w, a),
        HopModel::Workday(w) => if a.len() > 0 {
            encoded(w + "search.htmld?q="@ + a)
        } else {
            w + "home.htmld"@
        },
    }
}

impl HopType {
    /// Given a fragment of data as `args`, generate the redirect URL.
    pub fn to_string(&self, args: &str) -> (r: String)
        ensures
            r@ == apply_spec(self@, args@),
    {
        match *self {
            HopType::Basic(w) => {
                let mut u = String::from_str(w);
                u.append(args);
                encode(u.as_str())
            },
            HopType::Dashboard(w) => {
                match dash_alias(args) {
                    Some(f) => {
                        let mut u = String::from_str(w);
                        u.append("dashboard/");
                        u.append(f);
                        u
                    },
                    None => {
                        let mut u = String::from_str(w);
                        u.append("lists?q=");
                        u.append(args);
                        encode(u.as_str())
                    },
                }
            },
            HopType::Kanban(w) => {
                match kanban_alias(args) {
                    Some(f) => {
                        let mut u = String::from_str(w);
                        u.append("secure/RapidBoard.jspa?rapidView=");
                        u.append(f);
                        u
                    },
                    None => {
                        let mut u = String::from_str(w);
                        u.append("secure/RapidBoard.jspa");
                        u
                    },
                }
            },
            HopType::GitLab(w) => {
                if contains_char(args, '/') {
                    let mut u = String::from_str(w);
                    u.append(args);
                    u
                } else {
                    let mut u = String::from_str(w);
                    u.append("search?utf8=\u{2713}&search=");
                    u.append(args);
                    encode(u.as_str())
                }
            },
            HopType::Jira(w) => {
                if str_eq(args, "create") || str_eq(args, "new") {
                    let mut u = String::from_str(w);
                    u.append("secure/CreateIssue!default.jspa");
                    u
                } else if !args.is_empty() {
                    let mut u = String::from_str(w);
                    u.append("browse/");
                    u.append(args);
                    u
                } else {
                    let mut u = String::from_str(w);
                    u.append("issues/?filter=-1");
                    u
                }
            },
            HopType::OfficeSpace(w) => {
                if !args.is_empty() {
                    let mut u = String::from_str(w);
                    u.append("visual-directory/search/");
                    u.append(args);
                    encode(u.as_str())
                } else {
                    let mut u = String::from_str(w);
                    u.append("portal");
                    u
                }
            },
            HopType::Proctor(w) => {
                if !args.is_empty() {
                    let mut u = String::from_str(w);
                    u.append("definition/");
                    u.append(args);
                    encode(u.as_str())
                } else {
                    String::from_str(w)
                }
            },
            HopType::Runbook(w) => {
                match runbook_alias(args) {
                    Some(f) => {
                        let mut u = String::from_str(w);
                        u.append(f);
                        u
                    },
                    None => String::from_str(w),
                }
            },
            HopType::Sandbox(w) => {
                let mut u = String::from_str("https://");
                u.append(args);
                u.append(".");
                u.append(w);
                u
            },
            HopType::SourceGraph(w) => sg_apply(w, args),
            HopType::Workday(w) => {
                if !args.is_empty() {
                    let mut u = String::from_str(w);
                    u.append("search.htmld?q=");
                    u.append(args);
                    encode(u.as_str())
                } else {
                    let mut u = String::from_str(w);
                    u.append("home.htmld");
                    u
                }
            },
        }
    }
}

/// The SourceGraph rule as executable code; see `sg_spec`.
fn sg_apply(w: &str, args: &str) -> (r: String)
    ensures
        r@ == sg_spec(w@, args@),
{
    let n = args.unicode_len();
    let fs = find_space(args);
    let off = if fs == n {
        0
    } else {
        fs
    };
    proof {
        crate::strutil::lemma_first_space(args@);
    }
    let cand = args.substring_char(0, off);
    proof {
        assert(args@.subrange(0, off as int) =~= args@.take(off as int));
    }
    let flag = str_eq(cand, "re") || str_eq(cand, "rec") || str_eq(cand, "sl") || str_eq(
        cand,
        "slc",
    ) || str_eq(cand, "st") || str_eq(cand, "stc");
    if !flag {
        let mut u = String::from_str(w);
        u.append("search?q=");
        u.append(args);
        u.append("&patternType=literal");
        encode(u.as_str())
    } else {
        let rest = args.substring_char(off, n);
        proof {
            assert(args@.subrange(off as int, n as int) =~= args@.skip(off as int));
        }
        let query = trim_start(rest);
        let pat: &str = if off < 2 {
            "literal"
        } else {
            let p2 = cand.substring_char(0, 2);
            proof {
                assert(cand@.subrange(0, 2) =~= cand@.take(2));
            }
            if str_eq(p2, "re") {
                "regexp"
            } else if str_eq(p2, "sl") {
                "literal"
            } else if str_eq(p2, "st") {
                "structural"
            } else {
                "literal"
            }
        };
        let cs = (off == 3 && cand.get_char(2) == 'c') || str_eq(pat, "structural");
        let mut u = String::from_str(w);
        u.append("search?q=");
        u.append(query);
        u.append("&patternType=");
        u.append(pat);
        u.append("&case=");
        u.append(if cs {
            "true"
        } else {
            "false"
        });
        encode(u.as_str())
    }
}

} // verus!
