//! The MCP server's protocol side: JSON-RPC errors, the advertised tools,
//! the routing of methods and tool names, and the decisions inside the git
//! tools (defaults, reference names, which credential answers the remote,
//! which commits a log lists).

use vstd::prelude::*;

use crate::git_auth::ResolvedGitAuth;
use crate::text::{is_blank, signed_decimal};

verus! {

/// A JSON-RPC error object.
#[derive(Debug, Clone, PartialEq, Eq)]
pub struct JsonRpcError {
    pub code: i64,
    pub message: String,
}

impl JsonRpcError {
    /// The method is not one the server knows.
    pub fn method_not_found() -> (r: JsonRpcError)
        ensures
            r.code == -32601,
            r.message@ == "method not found"@,
    {
        JsonRpcError { code: -32601, message: "method not found".to_owned() }
    }

    /// The parameters could not be read; `error` is the reader's message.
    pub fn invalid_params(error: &str) -> (r: JsonRpcError)
        ensures
            r.code == -32602,
            r.message@ == "invalid params: "@ + error@,
    {
        JsonRpcError { code: -32602, message: crate::text::concat2("invalid params: ", error) }
    }

    /// The tool failed; `error` is its message.
    pub fn internal(error: &str) -> (r: JsonRpcError)
        ensures
            r.code == -32000,
            r.message@ == "internal error: "@ + error@,
    {
        JsonRpcError { code: -32000, message: crate::text::concat2("internal error: ", error) }
    }
}

/// A tool the server offers.
#[derive(Debug, Clone, PartialEq, Eq)]
pub struct ToolDefinition {
    pub name: &'static str,
    pub description: &'static str,
}

impl ToolDefinition {
    /// The git tools, in the order they are listed.
    pub fn defaults() -> (r: Vec<ToolDefinition>)
        ensures
            r@.len() == 5,
            r@[0].name@ == "git_clone"@ && r@[0].description@ == "Clone a git repository to a local path"@,
            r@[1].name@ == "git_pull"@ && r@[1].description@ == "Fetch and fast-forward the current branch"@,
            r@[2].name@ == "git_log"@ && r@[2].description@ == "List recent commits for a repository"@,
            r@[3].name@ == "git_diff"@ && r@[3].description@ == "Produce a patch between two commits"@,
            r@[4].name@ == "git_status"@ && r@[4].description@ == "Inspect the current working tree state"@,
    {
        let mut r: Vec<ToolDefinition> = Vec::new();
        r.push(ToolDefinition { name: "git_clone", description: "Clone a git repository to a local path" });
        r.push(ToolDefinition { name: "git_pull", description: "Fetch and fast-forward the current branch" });
        r.push(ToolDefinition { name: "git_log", description: "List recent commits for a repository" });
        r.push(ToolDefinition { name: "git_diff", description: "Produce a patch between two commits" });
        r.push(ToolDefinition { name: "git_status", description: "Inspect the current working tree state" });
        r
    }
}

/// One item of a tool's answer.
#[derive(Debug, Clone, PartialEq, Eq)]
pub struct ToolContent {
    pub kind: String,
    pub text: String,
}

/// A tool's answer: its payload as one text item.
#[derive(Debug, Clone, PartialEq, Eq)]
pub struct ToolResponse {
    pub content: Vec<ToolContent>,
}

impl ToolResponse {
    /// The answer that carries a payload, given as its JSON text.
    pub fn from_payload(payload_json: String) -> (r: ToolResponse)
        ensures
            r.content@.len() == 1,
            r.content@[0].kind@ == "text"@,
            r.content@[0].text == payload_json,
    {
        let mut content: Vec<ToolContent> = Vec::new();
        content.push(ToolContent { kind: "text".to_owned(), text: payload_json });
        ToolResponse { content }
    }

    /// The payload of an answer: the text of its first item.
    pub fn payload(&self) -> (r: Option<&String>)
        ensures
            match r {
                Some(t) => self.content@.len() > 0 && *t == self.content@[0].text,
                None => self.content@.len() == 0,
            },
    {
        if self.content.len() > 0 {
            Some(&self.content[0].text)
        } else {
            None
        }
    }
}

/// A JSON-RPC method the server answers.
#[derive(Debug, Clone, Copy, PartialEq, Eq)]
pub enum McpMethod {
    ToolsList,
    ToolsCall,
    Unknown,
}

/// Which method a request names.
pub fn route_method(method: &str) -> (r: McpMethod)
    ensures
        r == (if method@ == "tools/list"@ {
            McpMethod::ToolsList
        } else if method@ == "tools/call"@ {
            McpMethod::ToolsCall
        } else {
            McpMethod::Unknown
        }),
{
    if crate::text::str_eq(method, "tools/list") {
        McpMethod::ToolsList
    } else if crate::text::str_eq(method, "tools/call") {
        McpMethod::ToolsCall
    } else {
        McpMethod::Unknown
    }
}

/// A git tool.
#[derive(Debug, Clone, Copy, PartialEq, Eq)]
pub enum McpTool {
    GitClone,
    GitPull,
    GitLog,
    GitDiff,
    GitStatus,
}

pub open spec fn tool_named(name: Seq<char>) -> Option<McpTool> {
    if name == "git_clone"@ {
        Some(McpTool::GitClone)
    } else if name == "git_pull"@ {
        Some(McpTool::GitPull)
    } else if name == "git_log"@ {
        Some(McpTool::GitLog)
    } else if name == "git_diff"@ {
        Some(McpTool::GitDiff)
    } else if name == "git_status"@ {
        Some(McpTool::GitStatus)
    } else {
        None
    }
}

/// The tool a call names; a name that is no tool is refused with
/// `unsupported MCP tool: <name>`.
pub fn route_tool(name: &str) -> (r: Result<McpTool, String>)
    ensures
        match tool_named(name@) {
            Some(t) => r == Ok::<McpTool, String>(t),
            None => r matches Err(m) && m@ == "unsupported MCP tool: "@ + name@,
        },
{
    if crate::text::str_eq(name, "git_clone") {
        Ok(McpTool::GitClone)
    } else if crate::text::str_eq(name, "git_pull") {
        Ok(McpTool::GitPull)
    } else if crate::text::str_eq(name, "git_log") {
        Ok(McpTool::GitLog)
    } else if crate::text::str_eq(name, "git_diff") {
        Ok(McpTool::GitDiff)
    } else if crate::text::str_eq(name, "git_status") {
        Ok(McpTool::GitStatus)
    } else {
        Err(crate::text::concat2("unsupported MCP tool: ", name))
    }
}

/// The endpoint the MCP client posts to.
pub fn mcp_endpoint(base_url: &str) -> (r: String)
    ensures
        r@ == base_url@ + "/mcp"@,
{
    crate::text::concat2(base_url, "/mcp")
}

/// Arguments of `git_clone`.
#[derive(Debug, Clone, PartialEq, Eq)]
pub struct GitCloneArgs {
    pub url: String,
    pub path: String,
    pub branch: Option<String>,
}

/// Arguments of `git_pull`.
#[derive(Debug, Clone, PartialEq, Eq)]
pub struct GitPullArgs {
    pub path: String,
}

/// Arguments of `git_log`.
#[derive(Debug, Clone, PartialEq, Eq)]
pub struct GitLogArgs {
    pub path: String,
    pub count: Option<usize>,
    pub since: Option<String>,
}

/// Arguments of `git_diff`.
#[derive(Debug, Clone, PartialEq, Eq)]
pub struct GitDiffArgs {
    pub path: String,
    pub from: String,
    pub to: Option<String>,
}

/// Arguments of `git_status`.
#[derive(Debug, Clone, PartialEq, Eq)]
pub struct GitStatusArgs {
    pub path: String,
}

/// Answer of `git_clone`.
#[derive(Debug, Clone, PartialEq, Eq)]
pub struct GitCloneOutput {
    pub path: String,
    pub branch: String,
    pub head: Option<String>,
}

/// Answer of `git_pull`.
#[derive(Debug, Clone, PartialEq, Eq)]
pub struct GitPullOutput {
    pub branch: String,
    pub updated: bool,
    pub head: Option<String>,
}

/// One commit of a log.
#[derive(Debug, Clone, PartialEq, Eq)]
pub struct CommitEntry {
    pub id: String,
    pub summary: String,
}

/// Answer of `git_log`.
#[derive(Debug, Clone, PartialEq, Eq)]
pub struct GitLogOutput {
    pub entries: Vec<CommitEntry>,
}

/// Answer of `git_diff`.
#[derive(Debug, Clone, PartialEq, Eq)]
pub struct GitDiffOutput {
    pub from: String,
    pub to: String,
    pub changed_files: Vec<String>,
    pub patch: String,
    pub is_empty: bool,
}

/// Answer of `git_status`.
#[derive(Debug, Clone, PartialEq, Eq)]
pub struct GitStatusOutput {
    pub branch: Option<String>,
    pub head: Option<String>,
    pub clean: bool,
    pub entries: Vec<String>,
}

/// The answer of a clone: the branch asked for, or `HEAD`.
pub fn clone_output(args: &GitCloneArgs, head: Option<String>) -> (r: GitCloneOutput)
    ensures
        r.path@ == args.path@,
        r.branch@ == (match args.branch { Some(b) => b@, None => "HEAD"@ }),
        r.head == head,
{
    GitCloneOutput {
        path: args.path.clone(),
        branch: match &args.branch {
            Some(b) => b.clone(),
            None => "HEAD".to_owned(),
        },
        head,
    }
}

/// The current branch: the shorthand of `HEAD`, or `main` when it has none.
pub fn branch_or_main(shorthand: Option<&str>) -> (r: String)
    ensures
        r@ == (match shorthand { Some(s) => s@, None => "main"@ }),
{
    match shorthand {
        Some(s) => s.to_owned(),
        None => "main".to_owned(),
    }
}

/// `refs/heads/<branch>`.
pub fn local_branch_ref(branch: &str) -> (r: String)
    ensures
        r@ == "refs/heads/"@ + branch@,
{
    crate::text::concat2("refs/heads/", branch)
}

/// `refs/remotes/origin/<branch>`.
pub fn remote_branch_ref(branch: &str) -> (r: String)
    ensures
        r@ == "refs/remotes/origin/"@ + branch@,
{
    crate::text::concat2("refs/remotes/origin/", branch)
}

/// The refspec that fetches a branch into its remote-tracking reference.
pub fn fetch_refspec(branch: &str) -> (r: String)
    ensures
        r@ == "refs/heads/"@ + branch@ + ":refs/remotes/origin/"@ + branch@,
{
    let mut r = "refs/heads/".to_owned();
    r.append(branch);
    r.append(":refs/remotes/origin/");
    r.append(branch);
    r
}

/// What answers the remote's request for credentials.
#[derive(Debug, Clone, PartialEq, Eq)]
pub enum CredentialChoice {
    /// User name and password (or token) in plain text.
    UserPass { username: String, password: String },
    /// An SSH key file.
    SshKey { username: String, key_path: String },
    /// The git credential helper of the user's configuration.
    Helper { username: String },
}

/// The credential for a remote that asks with an optional user name from
/// the URL: tokens and passwords go as user and password, an SSH key uses
/// the URL's user name if there is one, and without stored authentication
/// the credential helper is asked for the URL's user name or `git`.
pub fn credential_choice(auth: Option<&ResolvedGitAuth>, url_username: Option<&str>) -> (r: CredentialChoice)
    ensures
        match auth {
            Some(ResolvedGitAuth::Token { username, token }) => r == CredentialChoice::UserPass {
                username: *username,
                password: *token,
            },
            Some(ResolvedGitAuth::Basic { username, password }) => r == CredentialChoice::UserPass {
                username: *username,
                password: *password,
            },
            Some(ResolvedGitAuth::Ssh { username, key_path }) => r matches CredentialChoice::SshKey { username: u, key_path: k }
                && k == *key_path && u@ == (match url_username { Some(n) => n@, None => username@ }),
            None => r matches CredentialChoice::Helper { username: u } && u@ == (match url_username {
                Some(n) => n@,
                None => "git"@,
            }),
        },
{
    match auth {
        Some(ResolvedGitAuth::Token { username, token }) => CredentialChoice::UserPass {
            username: username.clone(),
            password: token.clone(),
        },
        Some(ResolvedGitAuth::Basic { username, password }) => CredentialChoice::UserPass {
            username: username.clone(),
            password: password.clone(),
        },
        Some(ResolvedGitAuth::Ssh { username, key_path }) => CredentialChoice::SshKey {
            username: match url_username {
                Some(n) => n.to_owned(),
                None => username.clone(),
            },
            key_path: key_path.clone(),
        },
        None => CredentialChoice::Helper {
            username: match url_username {
                Some(n) => n.to_owned(),
                None => "git".to_owned(),
            },
        },
    }
}

/// How many commits a log walks: the count asked for, or 10.
pub fn log_limit(args: &GitLogArgs) -> (r: usize)
    ensures
        r == (match args.count { Some(c) => c, None => 10 }),
{
    match args.count {
        Some(c) => c,
        None => 10,
    }
}

/// Strings ordered character by character, a proper prefix first (`str`'s `>=`).
pub open spec fn text_ge(a: Seq<char>, b: Seq<char>) -> bool
    decreases a.len(),
{
    if b.len() == 0 {
        true
    } else if a.len() == 0 {
        false
    } else if a[0] != b[0] {
        (a[0] as u32) > (b[0] as u32)
    } else {
        text_ge(a.skip(1), b.skip(1))
    }
}

/// Whether `a >= b` as strings.
pub fn str_ge(a: &str, b: &str) -> (r: bool)
    ensures
        r == text_ge(a@, b@),
{
    let x = crate::text::chars_of(a);
    let y = crate::text::chars_of(b);
    let mut i: usize = 0;
    assert(a@.skip(0) =~= a@);
    assert(b@.skip(0) =~= b@);
    while i < x.len() && i < y.len() && x[i] == y[i]
        invariant
            i <= x.len(),
            i <= y.len(),
            x@ == a@,
            y@ == b@,
            text_ge(a@, b@) == text_ge(a@.skip(i as int), b@.skip(i as int)),
        decreases x.len() - i,
    {
        proof {
            assert(a@.skip(i as int).skip(1) =~= a@.skip(i + 1));
            assert(b@.skip(i as int).skip(1) =~= b@.skip(i + 1));
        }
        i = i + 1;
    }
    if i == y.len() {
        true
    } else if i == x.len() {
        false
    } else {
        (x[i] as u32) > (y[i] as u32)
    }
}

/// One commit as the walk yields it: id, summary and commit time in seconds.
#[derive(Debug, Clone, PartialEq, Eq)]
pub struct CommitInfo {
    pub id: String,
    pub summary: String,
    pub time_secs: i64,
}

/// A commit is listed when there is no `since` bound, or when the decimal
/// text of its commit time is, as a string, at least the bound.
pub open spec fn listed(c: CommitInfo, since: Option<String>) -> bool {
    match since {
        Some(s) => text_ge(signed_decimal(c.time_secs as int), s@),
        None => true,
    }
}

/// The entries of a log: the walked commits that pass the `since` bound, in
/// walk order.
pub open spec fn log_entries(cs: Seq<CommitInfo>, since: Option<String>) -> Seq<CommitInfo>
    decreases cs.len(),
{
    if cs.len() == 0 {
        Seq::empty()
    } else if listed(cs.last(), since) {
        log_entries(cs.drop_last(), since).push(cs.last())
    } else {
        log_entries(cs.drop_last(), since)
    }
}

pub open spec fn since_of(since: Option<&String>) -> Option<String> {
    match since {
        Some(s) => Some(*s),
        None => None,
    }
}

/// The answer of a log over the commits walked.
pub fn log_output(walked: &Vec<CommitInfo>, since: Option<&String>) -> (r: GitLogOutput)
    ensures
        r.entries@.len() == log_entries(walked@, since_of(since)).len(),
        forall|i: int| 0 <= i < r.entries@.len() ==> (#[trigger] r.entries@[i]).id@ == log_entries(walked@, since_of(since))[i].id@
            && r.entries@[i].summary@ == log_entries(walked@, since_of(since))[i].summary@,
{
    let ghost bound = since_of(since);
    let mut entries: Vec<CommitEntry> = Vec::new();
    let mut i: usize = 0;
    while i < walked.len()
        invariant
            i <= walked.len(),
            bound == since_of(since),
            entries@.len() == log_entries(walked@.take(i as int), bound).len(),
            forall|j: int| 0 <= j < entries@.len() ==> (#[trigger] entries@[j]).id@ == log_entries(walked@.take(i as int), bound)[j].id@
                && entries@[j].summary@ == log_entries(walked@.take(i as int), bound)[j].summary@,
        decreases walked.len() - i,
    {
        let c = &walked[i];
        let keep = match since {
            Some(s) => {
                let t = crate::text::signed_decimal_string(c.time_secs);
                str_ge(t.as_str(), s.as_str())
            },
            None => true,
        };
        proof {
            assert(walked@.take(i + 1).drop_last() =~= walked@.take(i as int));
            assert(walked@.take(i + 1).last() == walked@[i as int]);
        }
        if keep {
            entries.push(CommitEntry { id: c.id.clone(), summary: c.summary.clone() });
        }
        i = i + 1;
    }
    assert(walked@.take(walked.len() as int) =~= walked@);
    GitLogOutput { entries }
}

/// The answer of a diff; it is empty when the patch is blank.
pub fn diff_output(from: &str, to: String, changed_files: Vec<String>, patch: String) -> (r: GitDiffOutput)
    ensures
        r.from@ == from@,
        r.to == to,
        r.changed_files == changed_files,
        r.patch == patch,
        r.is_empty == is_blank(patch@),
{
    let is_empty = crate::text::blank(patch.as_str());
    GitDiffOutput { from: from.to_owned(), to, changed_files, patch, is_empty }
}

/// The answer of a status; the tree is clean when no entry is listed.
pub fn status_output(branch: Option<String>, head: Option<String>, entries: Vec<String>) -> (r: GitStatusOutput)
    ensures
        r.branch == branch,
        r.head == head,
        r.clean == (entries@.len() == 0),
        r.entries == entries,
{
    let clean = entries.len() == 0;
    GitStatusOutput { branch, head, clean, entries }
}

} // verus!
