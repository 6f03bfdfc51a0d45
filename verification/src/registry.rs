//! The shortcut registry: the fixed, ordered list of (token, strategy,
//! help text) entries built once at startup, lookup by exact token, and
//! the resolver with its web-search fallback for unknown commands.
use vstd::prelude::*;
use vstd::string::StringExecFns;

use crate::encode::{encode, encoded};
use crate::hop::{apply_spec, HopModel, HopType};
use crate::parse::{arg_of, cmd_of, validate};
use crate::strutil::{str_eq, trim_spec};

verus! {

/// One registry entry: a command token, the strategy it names, and a line
/// of help text.
#[derive(Clone, Copy)]
pub struct ShortcutEntry {
    pub token: &'static str,
    pub hop: HopType,
    pub help: &'static str,
}

/// The mathematical model of an entry: the views of its three fields.
pub struct EntryModel {
    pub token: Seq<char>,
    pub hop: HopModel,
    pub help: Seq<char>,
}

impl View for ShortcutEntry {
    type V = EntryModel;

    open spec fn view(&self) -> EntryModel {
        EntryModel { token: self.token@, hop: self.hop@, help: self.help@ }
    }
}

/// The models of a sequence of entries.
pub open spec fn views_of(s: Seq<ShortcutEntry>) -> Seq<EntryModel> {
    s.map_values(|e: ShortcutEntry| e@)
}

/// The fixed registry contents, as models. `jira` and `kanban` are both
/// registered against the Jira strategy — the board-alias Kanban strategy
/// is never reached from the registry; this looks unintended but is the
/// configuration as it stands, so it is kept.
pub open spec fn registry_spec() -> Seq<EntryModel> {
    seq![
        EntryModel {
            token: "bgs"@,
            hop: HopModel::SourceGraph("https://sourcegraph.indeed.tech/"@),
            help: "Big grep search/Sourcegraph"@,
        },
        EntryModel {
            token: "cal"@,
            hop: HopModel::Basic("https://calendar.google.com/"@),
            help: "Open Google calendar"@,
        },
        EntryModel {
            token: "expense"@,
            hop: HopModel::Basic("https://system.nexonia.com/assistant/logon.do"@),
            help: "Buy things with company money!"@,
        },
        EntryModel {
            token: "feedback"@,
            hop: HopModel::Basic("https://feedback.sanbox.indeed.net/dashboard"@),
            help: "Openthe feedback tool"@,
        },
        EntryModel {
            token: "g"@,
            hop: HopModel::Basic("https://google.com/search?q="@),
            help: "Google search"@,
        },
        EntryModel {
            token: "grok"@,
            hop: HopModel::Basic(
                "https://opengrok.dev.indeed.net/source/search?project=!all!&q=%s&defs=&refs=&path=&hist=&type="@,
            ),
            help: "OpenGrok"@,
        },
        EntryModel {
            token: "interviews"@,
            hop: HopModel::Basic("https://palp2.sandbox.indeed.net/"@),
            help: "Interviews tool"@,
        },
        EntryModel {
            token: "iql"@,
            hop: HopModel::Basic("https://squall.indeed.com/iqlweb/"@),
            help: "IQL shortcut"@,
        },
        EntryModel {
            token: "iw"@,
            hop: HopModel::Basic("https://wiki.indeed.com/dosearchsite.action?queryString="@),
            help: "Wiki search"@,
        },
        EntryModel {
            token: "login"@,
            hop: HopModel::Basic("https://indeed.onelogin.com/"@),
            help: "OneLogin"@,
        },
        EntryModel {
            token: "marv"@,
            hop: HopModel::Basic("https://marvin2.ausprod.indeed.net/projects/"@),
            help: "Marvin"@,
        },
        EntryModel {
            token: "nexonia"@,
            hop: HopModel::Basic("https://system.nexonia.com/assistant/logon.do"@),
            help: "Buy things with company money!"@,
        },
        EntryModel {
            token: "opengrok"@,
            hop: HopModel::Basic(
                "https://opengrok.dev.indeed.net/source/search?project=!all!&q=%s&defs=&refs=&path=&hist=&type="@,
            ),
            help: "OpenGrok, full codebase search"@,
        },
        EntryModel {
            token: "w"@,
            hop: HopModel::Basic("https://wiki.indeed.com/dosearchsite.action?queryString="@),
            help: "Wiki search"@,
        },
        EntryModel {
            token: "dash"@,
            hop: HopModel::Dashboard("https://app.datadoghq.com/"@),
            help: "Go to or search for dashboard"@,
        },
        EntryModel {
            token: "code"@,
            hop: HopModel::GitLab("https://code.corp.indeed.com/"@),
            help: "Go to or search in GitLab"@,
        },
        EntryModel {
            token: "jira"@,
            hop: HopModel::Jira("https://bugs.indeed.com/"@),
            help: "JIRA shortcut"@,
        },
        EntryModel {
            token: "kanban"@,
            hop: HopModel::Jira("https://bugs.indeed.com/"@),
            help: "Go to `kanban <team>`"@,
        },
        EntryModel {
            token: "officespace"@,
            hop: HopModel::OfficeSpace("https://indeed.officespacesoftware.com/"@),
            help: "It's a jump-to-conclusions mat."@,
        },
        EntryModel {
            token: "os"@,
            hop: HopModel::OfficeSpace("https://indeed.officespacesoftware.com/"@),
            help: "It's a jump-to-conclusions mat."@,
        },
        EntryModel {
            token: "proc"@,
            hop: HopModel::Proctor("https://proctor.sandbox.indeed.net/proctor/"@),
            help: "Go to or search in Proctor"@,
        },
        EntryModel {
            token: "proctor"@,
            hop: HopModel::Proctor("https://proctor.sandbox.indeed.net/proctor/"@),
            help: "Go to or search in Proctor"@,
        },
        EntryModel {
            token: "rb"@,
            hop: HopModel::Runbook("https://wiki.indeed.com/"@),
            help: "Open a runbook for team, in form 'runbook <team name>'"@,
        },
        EntryModel {
            token: "runbook"@,
            hop: HopModel::Runbook("https://wiki.indeed.com/"@),
            help: "Open a runbook for team, in form 'runbook <team name>'"@,
        },
        EntryModel {
            token: "sb"@,
            hop: HopModel::Sandbox("sandbox.indeed.net"@),
            help: "Shortcut to a sandbox"@,
        },
        EntryModel {
            token: "sg"@,
            hop: HopModel::SourceGraph("https://sourcegraph.indeed.tech/"@),
            help: "Big grep search/Sourcegraph"@,
        },
        EntryModel {
            token: "wd"@,
            hop: HopModel::Workday("https://www.myworkday.com/indeed/d/"@),
            help: "Go to or search workday"@,
        },
        EntryModel {
            token: "workday"@,
            hop: HopModel::Basic("https://www.myworkday.com/indeed/d/"@),
            help: "Go to or search workday"@,
        },
    ]
}

/// Build the registry. This is the compiled-in static configuration,
/// constructed once at startup and read-only afterwards.
#[verifier::rlimit(60)]
pub fn registry() -> (r: Vec<ShortcutEntry>)
    ensures
        views_of(r@) == registry_spec(),
{
    let r: Vec<ShortcutEntry> = vec![
        ShortcutEntry {
            token: "bgs",
            hop: HopType::SourceGraph("https://sourcegraph.indeed.tech/"),
            help: "Big grep search/Sourcegraph",
        },
        ShortcutEntry {
            token: "cal",
            hop: HopType::Basic("https://calendar.google.com/"),
            help: "Open Google calendar",
        },
        ShortcutEntry {
            token: "expense",
            hop: HopType::Basic("https://system.nexonia.com/assistant/logon.do"),
            help: "Buy things with company money!",
        },
        ShortcutEntry {
            token: "feedback",
            hop: HopType::Basic("https://feedback.sanbox.indeed.net/dashboard"),
            help: "Openthe feedback tool",
        },
        ShortcutEntry {
            token: "g",
            hop: HopType::Basic("https://google.com/search?q="),
            help: "Google search",
        },
        ShortcutEntry {
            token: "grok",
            hop: HopType::Basic(
                "https://opengrok.dev.indeed.net/source/search?project=!all!&q=%s&defs=&refs=&path=&hist=&type=",
            ),
            help: "OpenGrok",
        },
        ShortcutEntry {
            token: "interviews",
            hop: HopType::Basic("https://palp2.sandbox.indeed.net/"),
            help: "Interviews tool",
        },
        ShortcutEntry {
            token: "iql",
            hop: HopType::Basic("https://squall.indeed.com/iqlweb/"),
            help: "IQL shortcut",
        },
        ShortcutEntry {
            token: "iw",
            hop: HopType::Basic("https://wiki.indeed.com/dosearchsite.action?queryString="),
            help: "Wiki search",
        },
        ShortcutEntry {
            token: "login",
            hop: HopType::Basic("https://indeed.onelogin.com/"),
            help: "OneLogin",
        },
        ShortcutEntry {
            token: "marv",
            hop: HopType::Basic("https://marvin2.ausprod.indeed.net/projects/"),
            help: "Marvin",
        },
        ShortcutEntry {
            token: "nexonia",
            hop: HopType::Basic("https://system.nexonia.com/assistant/logon.do"),
            help: "Buy things with company money!",
        },
        ShortcutEntry {
            token: "opengrok",
            hop: HopType::Basic(
                "https://opengrok.dev.indeed.net/source/search?project=!all!&q=%s&defs=&refs=&path=&hist=&type=",
            ),
            help: "OpenGrok, full codebase search",
        },
        ShortcutEntry {
            token: "w",
            hop: HopType::Basic("https://wiki.indeed.com/dosearchsite.action?queryString="),
            help: "Wiki search",
        },
        ShortcutEntry {
            token: "dash",
            hop: HopType::Dashboard("https://app.datadoghq.com/"),
            help: "Go to or search for dashboard",
        },
        ShortcutEntry {
            token: "code",
            hop: HopType::GitLab("https://code.corp.indeed.com/"),
            help: "Go to or search in GitLab",
        },
        ShortcutEntry {
            token: "jira",
            hop: HopType::Jira("https://bugs.indeed.com/"),
            help: "JIRA shortcut",
        },
        ShortcutEntry {
            token: "kanban",
            hop: HopType::Jira("https://bugs.indeed.com/"),
            help: "Go to `kanban <team>`",
        },
        ShortcutEntry {
            token: "officespace",
            hop: HopType::OfficeSpace("https://indeed.officespacesoftware.com/"),
            help: "It's a jump-to-conclusions mat.",
        },
        ShortcutEntry {
            token: "os",
            hop: HopType::OfficeSpace("https://indeed.officespacesoftware.com/"),
            help: "It's a jump-to-conclusions mat.",
        },
        ShortcutEntry {
            token: "proc",
            hop: HopType::Proctor("https://proctor.sandbox.indeed.net/proctor/"),
            help: "Go to or search in Proctor",
        },
        ShortcutEntry {
            token: "proctor",
            hop: HopType::Proctor("https://proctor.sandbox.indeed.net/proctor/"),
            help: "Go to or search in Proctor",
        },
        ShortcutEntry {
            token: "rb",
            hop: HopType::Runbook("https://wiki.indeed.com/"),
            help: "Open a runbook for team, in form 'runbook <team name>'",
        },
        ShortcutEntry {
            token: "runbook",
            hop: HopType::Runbook("https://wiki.indeed.com/"),
            help: "Open a runbook for team, in form 'runbook <team name>'",
        },
        ShortcutEntry {
            token: "sb",
            hop: HopType::Sandbox("sandbox.indeed.net"),
            help: "Shortcut to a sandbox",
        },
        ShortcutEntry {
            token: "sg",
            hop: HopType::SourceGraph("https://sourcegraph.indeed.tech/"),
            help: "Big grep search/Sourcegraph",
        },
        ShortcutEntry {
            token: "wd",
            hop: HopType::Workday("https://www.myworkday.com/indeed/d/"),
            help: "Go to or search workday",
        },
        ShortcutEntry {
            token: "workday",
            hop: HopType::Basic("https://www.myworkday.com/indeed/d/"),
            help: "Go to or search workday",
        },
    ];
    proof {
        assert(views_of(r@) =~= registry_spec());
    }
    r
}

/// The first entry whose token is the given one, if any.
pub open spec fn find_entry(entries: Seq<EntryModel>, tok: Seq<char>) -> Option<EntryModel>
    decreases entries.len(),
{
    if entries.len() == 0 {
        None
    } else if entries[0].token == tok {
        Some(entries[0])
    } else {
        find_entry(entries.drop_first(), tok)
    }
}

proof fn lemma_find_entry_skip(entries: Seq<EntryModel>, tok: Seq<char>, i: int)
    requires
        0 <= i <= entries.len(),
        forall|j: int| 0 <= j < i ==> (#[trigger] entries[j]).token != tok,
    ensures
        find_entry(entries, tok) == find_entry(entries.skip(i), tok),
    decreases i,
{
    if i == 0 {
        assert(entries.skip(0) =~= entries);
    } else {
        lemma_find_entry_skip(entries, tok, i - 1);
        assert(entries.skip(i - 1).drop_first() =~= entries.skip(i));
        assert(entries.skip(i - 1)[0] == entries[i - 1]);
    }
}

/// A lookup succeeds exactly when some entry carries the token, and what
/// it returns is the first such entry: the entries before it all carry
/// other tokens.
pub proof fn lemma_find_entry_characterization(entries: Seq<EntryModel>, tok: Seq<char>)
    ensures
        find_entry(entries, tok) is Some <==> exists|j: int|
            0 <= j < entries.len() && (#[trigger] entries[j]).token == tok,
        find_entry(entries, tok) is Some ==> exists|j: int|
            {
                &&& 0 <= j < entries.len()
                &&& (#[trigger] entries[j]).token == tok
                &&& find_entry(entries, tok) == Some(entries[j])
                &&& forall|k: int| 0 <= k < j ==> (#[trigger] entries[k]).token != tok
            },
    decreases entries.len(),
{
    if entries.len() > 0 && entries[0].token != tok {
        lemma_find_entry_characterization(entries.drop_first(), tok);
        let d = entries.drop_first();
        if find_entry(entries, tok) is Some {
            let j = choose|j: int|
                {
                    &&& 0 <= j < d.len()
                    &&& (#[trigger] d[j]).token == tok
                    &&& find_entry(d, tok) == Some(d[j])
                    &&& forall|k: int| 0 <= k < j ==> (#[trigger] d[k]).token != tok
                };
            assert(entries[j + 1] == d[j]);
            assert(forall|k: int| 1 <= k < j + 1 ==> (#[trigger] entries[k]).token == d[k - 1].token);
            assert(forall|k: int| 0 <= k < j + 1 ==> (#[trigger] entries[k]).token != tok);
        }
        if exists|j: int| 0 <= j < entries.len() && (#[trigger] entries[j]).token == tok {
            let j = choose|j: int| 0 <= j < entries.len() && (#[trigger] entries[j]).token == tok;
            assert(j >= 1 && d[j - 1] == entries[j]);
        }
    }
}

/// Look a command token up in a registry. The match is exact and
/// case-sensitive; the first matching entry wins.
pub fn lookup(entries: &Vec<ShortcutEntry>, token: &str) -> (r: Option<ShortcutEntry>)
    ensures
        r is Some <==> find_entry(views_of(entries@), token@) is Some,
        r is Some ==> r->0@ == find_entry(views_of(entries@), token@)->0,
{
    let ghost models = views_of(entries@);
    let n = entries.len();
    let mut i: usize = 0;
    while i < n
        invariant
            n == entries.len(),
            models == views_of(entries@),
            0 <= i <= n,
            models.len() == n,
            forall|j: int| 0 <= j < i ==> (#[trigger] models[j]).token != token@,
        decreases n - i,
    {
        let e = entries[i];
        if str_eq(e.token, token) {
            proof {
                lemma_find_entry_skip(models, token@, i as int);
                assert(models.skip(i as int)[0] == models[i as int]);
            }
            return Some(e);
        }
        i = i + 1;
    }
    proof {
        lemma_find_entry_skip(models, token@, n as int);
        assert(models.skip(n as int) =~= Seq::<EntryModel>::empty());
    }
    None
}

/// What resolving a raw input against a registry returns: the matched
/// strategy applied to the argument remainder, or the default web-search
/// URL built from the whole trimmed input.
pub open spec fn resolve_spec(entries: Seq<EntryModel>, raw: Seq<char>) -> Seq<char> {
    let t = trim_spec(raw);
    match find_entry(entries, cmd_of(t)) {
        Some(e) => apply_spec(e.hop, arg_of(t)),
        None => encoded("https://google.com/search?q="@ + t),
    }
}

/// Resolve a raw input string to its destination URL. An unknown command
/// never errors: it falls back to a web search for the whole trimmed
/// input.
pub fn resolve(entries: &Vec<ShortcutEntry>, raw: &str) -> (r: String)
    ensures
        r@ == resolve_spec(views_of(entries@), raw@),
{
    let (cmd, argv, whole) = validate(raw);
    match lookup(entries, cmd) {
        Some(e) => e.hop.to_string(argv),
        None => {
            let mut u = String::from_str("https://google.com/search?q=");
            u.append(whole);
            encode(u.as_str())
        },
    }
}

} // verus!
