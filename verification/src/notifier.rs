//! Notifications of finished tasks: which configured channels take part, and
//! the text each kind of channel is sent.

use vstd::prelude::*;

use crate::config::{ChannelConfig, NotifierConfig};
use crate::text::{decimal, string_of, chars_of};

verus! {

/// What is reported of a finished task.
#[derive(Debug, Clone)]
pub struct Notification {
    pub task_name: String,
    pub task_type: String,
    pub repo_name: Option<String>,
    pub status: String,
    pub summary: String,
    pub report_path: Option<String>,
    pub duration_secs: u64,
}

/// A channel ready to send: its kind with the fields that kind needs.
#[derive(Debug, Clone, PartialEq, Eq)]
pub enum ChannelSpec {
    Wecom { name: String, webhook_url: String },
    Telegram { name: String, bot_token: String, chat_id: String },
    WhatsApp { name: String, api_url: String, access_token: String, recipient: String },
}

/// A channel of a known kind that lacks a field its kind needs.
#[derive(Debug, Clone, PartialEq, Eq)]
pub struct NotifierError {
    pub channel: String,
    pub field: String,
}

impl NotifierError {
    /// The error as it is reported.
    pub fn message(&self) -> (r: String)
        ensures
            r@ == "notifier channel "@ + self.channel@ + " requires "@ + self.field@,
    {
        let mut r = "notifier channel ".to_owned();
        r.append(self.channel.as_str());
        r.append(" requires ");
        r.append(self.field.as_str());
        r
    }
}

/// The channels that notifications are sent to.
#[derive(Debug, Clone)]
pub struct NotifierDispatcher {
    channels: Vec<ChannelSpec>,
}

/// The channel a configured entry becomes: `None` for a kind that is not
/// known, an error naming the first missing field of a known kind.
pub open spec fn channel_spec(c: ChannelConfig) -> Result<Option<ChannelSpec>, Seq<char>> {
    if c.kind@ == "wecom"@ {
        match c.webhook_url {
            Some(u) => Ok(Some(ChannelSpec::Wecom { name: c.name, webhook_url: u })),
            None => Err("webhook_url"@),
        }
    } else if c.kind@ == "telegram"@ {
        match (c.bot_token, c.chat_id) {
            (Some(t), Some(id)) => Ok(Some(ChannelSpec::Telegram { name: c.name, bot_token: t, chat_id: id })),
            (None, _) => Err("bot_token"@),
            (Some(_), None) => Err("chat_id"@),
        }
    } else if c.kind@ == "whatsapp"@ {
        match (c.api_url, c.access_token, c.recipient) {
            (Some(u), Some(t), Some(to)) => Ok(Some(ChannelSpec::WhatsApp { name: c.name, api_url: u, access_token: t, recipient: to })),
            (None, _, _) => Err("api_url"@),
            (Some(_), None, _) => Err("access_token"@),
            (Some(_), Some(_), None) => Err("recipient"@),
        }
    } else {
        Ok(None)
    }
}

/// The channels built from the first `n` configured entries: disabled ones
/// and unknown kinds are left out; the first entry that cannot be built
/// stops everything with its channel name and field.
pub open spec fn build_channels(cs: Seq<ChannelConfig>, n: nat) -> Result<Seq<ChannelSpec>, (Seq<char>, Seq<char>)>
    decreases n,
{
    if n == 0 {
        Ok(Seq::empty())
    } else {
        match build_channels(cs, (n - 1) as nat) {
            Err(e) => Err(e),
            Ok(built) => {
                let c = cs[n - 1];
                if !c.enabled {
                    Ok(built)
                } else {
                    match channel_spec(c) {
                        Err(field) => Err((c.name@, field)),
                        Ok(None) => Ok(built),
                        Ok(Some(s)) => Ok(built.push(s)),
                    }
                }
            },
        }
    }
}

proof fn lemma_build_error_stays(cs: Seq<ChannelConfig>, k: nat, n: nat, e: (Seq<char>, Seq<char>))
    requires
        k <= n,
        build_channels(cs, k) == Err::<Seq<ChannelSpec>, (Seq<char>, Seq<char>)>(e),
    ensures
        build_channels(cs, n) == Err::<Seq<ChannelSpec>, (Seq<char>, Seq<char>)>(e),
    decreases n - k,
{
    if k < n {
        lemma_build_error_stays(cs, k, (n - 1) as nat, e);
    }
}

/// A channel kind that can be built.
pub open spec fn known_kind(kind: Seq<char>) -> bool {
    kind == "wecom"@ || kind == "telegram"@ || kind == "whatsapp"@
}

/// An enabled channel of a known kind: notifications go to it.
pub open spec fn notified(c: ChannelConfig) -> bool {
    c.enabled && known_kind(c.kind@)
}

/// An enabled channel of a known kind that lacks a field its kind needs.
pub open spec fn lacks_field(c: ChannelConfig) -> bool {
    notified(c) && channel_spec(c) is Err
}

/// The indices, among the first `n` entries, of the channels notified, in order.
pub open spec fn notified_indices(cs: Seq<ChannelConfig>, n: nat) -> Seq<int>
    decreases n,
{
    if n == 0 {
        Seq::empty()
    } else if notified(cs[n - 1]) {
        notified_indices(cs, (n - 1) as nat).push(n - 1)
    } else {
        notified_indices(cs, (n - 1) as nat)
    }
}

/// The channels built from a configuration, stated directly: the build fails
/// exactly when some enabled channel of a known kind lacks a field it needs,
/// and then names the first such channel and its first missing field;
/// otherwise the channels are the enabled ones of known kinds, in order
/// (disabled entries are ignored even when incomplete, unknown kinds skipped).
pub proof fn lemma_channels_built(cs: Seq<ChannelConfig>, n: nat)
    requires
        n <= cs.len(),
    ensures
        (build_channels(cs, n) is Err) <==> (exists|i: int| 0 <= i < n && lacks_field(#[trigger] cs[i])),
        build_channels(cs, n) matches Err((name, field)) ==> exists|i: int| 0 <= i < n && #[trigger] lacks_field(cs[i])
            && (forall|j: int| 0 <= j < i ==> !lacks_field(#[trigger] cs[j]))
            && name == cs[i].name@ && channel_spec(cs[i]) == Err::<Option<ChannelSpec>, Seq<char>>(field),
        build_channels(cs, n) matches Ok(b) ==> b.len() == notified_indices(cs, n).len()
            && forall|k: int| 0 <= k < b.len() ==> channel_spec(cs[#[trigger] notified_indices(cs, n)[k]])
                == Ok::<Option<ChannelSpec>, Seq<char>>(Some(b[k])),
    decreases n,
{
    if n > 0 {
        let m = (n - 1) as nat;
        lemma_channels_built(cs, m);
        let c = cs[m as int];
        assert(known_kind(c.kind@) <==> !(channel_spec(c) matches Ok(None)));
        if build_channels(cs, m) is Err {
            let i = choose|i: int| 0 <= i < m && lacks_field(#[trigger] cs[i]);
        } else {
            if exists|i: int| 0 <= i < n && lacks_field(#[trigger] cs[i]) {
                let i = choose|i: int| 0 <= i < n && lacks_field(#[trigger] cs[i]);
                assert(i == m);
            }
            if lacks_field(c) {
                assert(forall|j: int| 0 <= j < m ==> !lacks_field(#[trigger] cs[j]));
            }
            if build_channels(cs, n) is Ok {
                let b = build_channels(cs, n)->Ok_0;
                let bm = build_channels(cs, m)->Ok_0;
                if notified(c) {
                    assert(notified_indices(cs, n) == notified_indices(cs, m).push(m as int));
                    assert forall|k: int| 0 <= k < b.len() implies channel_spec(cs[#[trigger] notified_indices(cs, n)[k]])
                        == Ok::<Option<ChannelSpec>, Seq<char>>(Some(b[k])) by {
                        if k < bm.len() {
                            assert(notified_indices(cs, n)[k] == notified_indices(cs, m)[k]);
                            assert(b[k] == bm[k]);
                        }
                    }
                }
            }
        }
    }
}

/// What each kind of channel needs, and what it becomes: a WeCom channel
/// needs its webhook URL, a Telegram channel its bot token and chat id, a
/// WhatsApp channel its API URL, access token and recipient; a channel with
/// all of them becomes a channel of that kind carrying them under its name,
/// and a channel of any other kind is skipped.
pub proof fn lemma_channel_requirements(c: ChannelConfig)
    ensures
        c.kind@ == seq!['w', 'e', 'c', 'o', 'm'] ==> (channel_spec(c) is Err <==> c.webhook_url is None),
        c.kind@ == seq!['w', 'e', 'c', 'o', 'm'] && c.webhook_url is Some ==> channel_spec(c)
            == Ok::<Option<ChannelSpec>, Seq<char>>(Some(ChannelSpec::Wecom { name: c.name, webhook_url: c.webhook_url->Some_0 })),
        c.kind@ == seq!['t', 'e', 'l', 'e', 'g', 'r', 'a', 'm'] ==> (channel_spec(c) is Err <==> (c.bot_token is None || c.chat_id is None)),
        c.kind@ == seq!['t', 'e', 'l', 'e', 'g', 'r', 'a', 'm'] && c.bot_token is Some && c.chat_id is Some ==> channel_spec(c)
            == Ok::<Option<ChannelSpec>, Seq<char>>(Some(ChannelSpec::Telegram {
                name: c.name,
                bot_token: c.bot_token->Some_0,
                chat_id: c.chat_id->Some_0,
            })),
        c.kind@ == seq!['w', 'h', 'a', 't', 's', 'a', 'p', 'p'] ==> (channel_spec(c) is Err
            <==> (c.api_url is None || c.access_token is None || c.recipient is None)),
        c.kind@ == seq!['w', 'h', 'a', 't', 's', 'a', 'p', 'p'] && c.api_url is Some && c.access_token is Some && c.recipient is Some
            ==> channel_spec(c) == Ok::<Option<ChannelSpec>, Seq<char>>(Some(ChannelSpec::WhatsApp {
                name: c.name,
                api_url: c.api_url->Some_0,
                access_token: c.access_token->Some_0,
                recipient: c.recipient->Some_0,
            })),
        !(c.kind@ == seq!['w', 'e', 'c', 'o', 'm'] || c.kind@ == seq!['t', 'e', 'l', 'e', 'g', 'r', 'a', 'm'] || c.kind@ == seq!['w', 'h', 'a', 't', 's', 'a', 'p', 'p'])
            ==> channel_spec(c) == Ok::<Option<ChannelSpec>, Seq<char>>(None),
{
    reveal_strlit("wecom");
    reveal_strlit("telegram");
    reveal_strlit("whatsapp");
    assert("wecom"@ =~= seq!['w', 'e', 'c', 'o', 'm']);
    assert("telegram"@ =~= seq!['t', 'e', 'l', 'e', 'g', 'r', 'a', 'm']);
    assert("whatsapp"@ =~= seq!['w', 'h', 'a', 't', 's', 'a', 'p', 'p']);
    assert(seq!['w', 'e', 'c', 'o', 'm'] != seq!['t', 'e', 'l', 'e', 'g', 'r', 'a', 'm']) by { assert(seq!['w', 'e', 'c', 'o', 'm'].len() != seq!['t', 'e', 'l', 'e', 'g', 'r', 'a', 'm'].len()); }
    assert(seq!['w', 'e', 'c', 'o', 'm'] != seq!['w', 'h', 'a', 't', 's', 'a', 'p', 'p']) by { assert(seq!['w', 'e', 'c', 'o', 'm'].len() != seq!['w', 'h', 'a', 't', 's', 'a', 'p', 'p'].len()); }
    assert(seq!['t', 'e', 'l', 'e', 'g', 'r', 'a', 'm'] != seq!['w', 'h', 'a', 't', 's', 'a', 'p', 'p']) by { assert(seq!['t', 'e', 'l', 'e', 'g', 'r', 'a', 'm'][0] != seq!['w', 'h', 'a', 't', 's', 'a', 'p', 'p'][0]); }
}

fn build_channel(c: &ChannelConfig) -> (r: Result<Option<ChannelSpec>, NotifierError>)
    ensures
        match r {
            Ok(s) => channel_spec(*c) == Ok::<Option<ChannelSpec>, Seq<char>>(s),
            Err(e) => channel_spec(*c) == Err::<Option<ChannelSpec>, Seq<char>>(e.field@) && e.channel@ == c.name@,
        },
{
    let missing = |field: &str| -> (e: NotifierError)
        ensures
            e.channel@ == c.name@ && e.field@ == field@,
    { NotifierError { channel: c.name.clone(), field: field.to_owned() } };
    if crate::text::str_eq(c.kind.as_str(), "wecom") {
        match crate::text::clone_opt(&c.webhook_url) {
            Some(u) => Ok(Some(ChannelSpec::Wecom { name: c.name.clone(), webhook_url: u })),
            None => Err(missing("webhook_url")),
        }
    } else if crate::text::str_eq(c.kind.as_str(), "telegram") {
        match (crate::text::clone_opt(&c.bot_token), crate::text::clone_opt(&c.chat_id)) {
            (Some(t), Some(id)) => Ok(Some(ChannelSpec::Telegram { name: c.name.clone(), bot_token: t, chat_id: id })),
            (None, _) => Err(missing("bot_token")),
            (Some(_), None) => Err(missing("chat_id")),
        }
    } else if crate::text::str_eq(c.kind.as_str(), "whatsapp") {
        match (crate::text::clone_opt(&c.api_url), crate::text::clone_opt(&c.access_token), crate::text::clone_opt(&c.recipient)) {
            (Some(u), Some(t), Some(to)) => Ok(Some(ChannelSpec::WhatsApp {
                name: c.name.clone(),
                api_url: u,
                access_token: t,
                recipient: to,
            })),
            (None, _, _) => Err(missing("api_url")),
            (Some(_), None, _) => Err(missing("access_token")),
            (Some(_), Some(_), None) => Err(missing("recipient")),
        }
    } else {
        Ok(None)
    }
}

/// Whether a channel kind is one that can be built (the others are skipped).
pub fn is_known_kind(kind: &str) -> (r: bool)
    ensures
        r == (kind@ == "wecom"@ || kind@ == "telegram"@ || kind@ == "whatsapp"@),
{
    crate::text::str_eq(kind, "wecom") || crate::text::str_eq(kind, "telegram") || crate::text::str_eq(kind, "whatsapp")
}

impl Default for NotifierDispatcher {
    /// A dispatcher without channels.
    fn default() -> (r: NotifierDispatcher)
        ensures
            r.channels().len() == 0,
    {
        NotifierDispatcher { channels: Vec::new() }
    }
}

impl NotifierDispatcher {
    pub closed spec fn channels(&self) -> Seq<ChannelSpec> {
        self.channels@
    }

    /// The dispatcher of the enabled channels of known kinds, in the order
    /// they are configured; refused when one of them lacks a required field.
    pub fn from_config(config: &NotifierConfig) -> (r: Result<NotifierDispatcher, NotifierError>)
        ensures
            match r {
                Ok(d) => build_channels(config.channels@, config.channels@.len()) == Ok::<Seq<ChannelSpec>, (Seq<char>, Seq<char>)>(d.channels()),
                Err(e) => build_channels(config.channels@, config.channels@.len()) == Err::<Seq<ChannelSpec>, (Seq<char>, Seq<char>)>((e.channel@, e.field@)),
            },
            r is Err <==> exists|i: int| 0 <= i < config.channels@.len() && lacks_field(#[trigger] config.channels@[i]),
            r matches Ok(d) ==> d.channels().len() == notified_indices(config.channels@, config.channels@.len()).len()
                && forall|k: int| 0 <= k < d.channels().len() ==> channel_spec(
                    config.channels@[#[trigger] notified_indices(config.channels@, config.channels@.len())[k]],
                ) == Ok::<Option<ChannelSpec>, Seq<char>>(Some(d.channels()[k])),
    {
        proof {
            lemma_channels_built(config.channels@, config.channels@.len());
        }
        let cs = &config.channels;
        let mut channels: Vec<ChannelSpec> = Vec::new();
        let mut i: usize = 0;
        while i < cs.len()
            invariant
                i <= cs.len(),
                cs@ == config.channels@,
                build_channels(cs@, i as nat) == Ok::<Seq<ChannelSpec>, (Seq<char>, Seq<char>)>(channels@),
            decreases cs.len() - i,
        {
            let c = &cs[i];
            if c.enabled {
                match build_channel(c) {
                    Ok(Some(s)) => {
                        channels.push(s);
                    },
                    Ok(None) => {},
                    Err(e) => {
                        proof {
                            assert(cs@[i as int] == *c);
                            assert(build_channels(cs@, (i + 1) as nat) == Err::<Seq<ChannelSpec>, (Seq<char>, Seq<char>)>((e.channel@, e.field@)));
                            lemma_build_error_stays(cs@, (i + 1) as nat, cs@.len(), (e.channel@, e.field@));
                        }
                        return Err(e);
                    },
                }
            }
            i = i + 1;
        }
        Ok(NotifierDispatcher { channels })
    }

    /// A dispatcher without channels.
    pub fn empty() -> (r: NotifierDispatcher)
        ensures
            r.channels().len() == 0,
    {
        NotifierDispatcher { channels: Vec::new() }
    }

    /// Whether any channel will be notified.
    pub fn is_enabled(&self) -> (r: bool)
        ensures
            r == (self.channels().len() > 0),
    {
        self.channels.len() > 0
    }

    /// The channels, in order.
    pub fn channel_list(&self) -> (r: &Vec<ChannelSpec>)
        ensures
            r@ == self.channels(),
    {
        &self.channels
    }
}

/// `s` cut to its first `max` characters.
pub open spec fn truncated(s: Seq<char>, max: nat) -> Seq<char> {
    if s.len() > max { s.take(max as int) } else { s }
}

/// The first `max_chars` characters of `input`, or all of it when it is shorter.
pub fn truncate_chars(input: &str, max_chars: usize) -> (r: String)
    ensures
        r@ == truncated(input@, max_chars as nat),
{
    let v = chars_of(input);
    if v.len() > max_chars {
        let t = crate::text::slice_chars(&v, 0, max_chars);
        assert(t@ =~= input@.take(max_chars as int));
        string_of(&t)
    } else {
        input.to_owned()
    }
}

/// `[OK]` for a task that is done, `[FAIL]` otherwise, then the task's name and type.
pub open spec fn title_of(n: Notification) -> Seq<char> {
    let mark = if n.status@ == "done"@ { "OK"@ } else { "FAIL"@ };
    "["@ + mark + "] "@ + n.task_name@ + " ("@ + n.task_type@ + ")"@
}

pub open spec fn or_dash(v: Option<String>) -> Seq<char> {
    match v {
        Some(s) => s@,
        None => "-"@,
    }
}

/// The body of a notification; `markdown` doubles the line breaks.
pub open spec fn body_of(n: Notification, markdown: bool) -> Seq<char> {
    let nl = if markdown { "\n\n"@ } else { "\n"@ };
    "仓库: "@ + or_dash(n.repo_name) + nl + "状态: "@ + n.status@ + nl + "耗时: "@ + decimal(n.duration_secs as nat)
        + "s"@ + nl + "报告: "@ + or_dash(n.report_path) + nl + nl + "摘要:"@ + nl + truncated(n.summary@, 1500)
}

/// The title line of a notification.
pub fn notification_title(n: &Notification) -> (r: String)
    ensures
        r@ == title_of(*n),
{
    let mark = if crate::text::str_eq(n.status.as_str(), "done") { "OK" } else { "FAIL" };
    let mut r = "[".to_owned();
    r.append(mark);
    r.append("] ");
    r.append(n.task_name.as_str());
    r.append(" (");
    r.append(n.task_type.as_str());
    r.append(")");
    r
}

/// The body of a notification: repository, status, duration, report and the
/// summary cut to 1500 characters.
pub fn format_notification(n: &Notification, include_markdown_line_breaks: bool) -> (r: String)
    ensures
        r@ == body_of(*n, include_markdown_line_breaks),
{
    let nl = if include_markdown_line_breaks { "\n\n" } else { "\n" };
    let repo = match &n.repo_name {
        Some(s) => s.as_str(),
        None => "-",
    };
    let report = match &n.report_path {
        Some(s) => s.as_str(),
        None => "-",
    };
    let duration = crate::text::decimal_string(n.duration_secs);
    let summary = truncate_chars(n.summary.as_str(), 1500);
    let mut r = "仓库: ".to_owned();
    r.append(repo);
    r.append(nl);
    r.append("状态: ");
    r.append(n.status.as_str());
    r.append(nl);
    r.append("耗时: ");
    r.append(duration.as_str());
    r.append("s");
    r.append(nl);
    r.append("报告: ");
    r.append(report);
    r.append(nl);
    r.append(nl);
    r.append("摘要:");
    r.append(nl);
    r.append(summary.as_str());
    r
}

/// The characters that MarkdownV2 requires to be escaped.
pub open spec fn is_markdown_special(c: char) -> bool {
    c == '_' || c == '*' || c == '[' || c == ']' || c == '(' || c == ')' || c == '~' || c == '`' || c == '>'
        || c == '#' || c == '+' || c == '-' || c == '=' || c == '|' || c == '{' || c == '}' || c == '.'
        || c == '!'
}

/// `s` with a backslash put before every special character.
pub open spec fn escaped(s: Seq<char>) -> Seq<char>
    decreases s.len(),
{
    if s.len() == 0 {
        Seq::empty()
    } else {
        let c = s.last();
        let tail = if is_markdown_special(c) { seq!['\\', c] } else { seq![c] };
        escaped(s.drop_last()) + tail
    }
}

/// Escapes `input` for Telegram's MarkdownV2.
pub fn escape_markdown(input: &str) -> (r: String)
    ensures
        r@ == escaped(input@),
{
    let v = chars_of(input);
    let mut out: Vec<char> = Vec::new();
    let mut i: usize = 0;
    while i < v.len()
        invariant
            i <= v.len(),
            v@ == input@,
            out@ == escaped(v@.take(i as int)),
        decreases v.len() - i,
    {
        let ch = v[i];
        let special = ch == '_' || ch == '*' || ch == '[' || ch == ']' || ch == '(' || ch == ')' || ch == '~'
            || ch == '`' || ch == '>' || ch == '#' || ch == '+' || ch == '-' || ch == '=' || ch == '|' || ch == '{'
            || ch == '}' || ch == '.' || ch == '!';
        if special {
            out.push('\\');
        }
        out.push(ch);
        proof {
            assert(v@.take(i + 1).drop_last() =~= v@.take(i as int));
            assert(out@ =~= escaped(v@.take(i + 1)));
        }
        i = i + 1;
    }
    assert(v@.take(v.len() as int) =~= v@);
    string_of(&out)
}

/// Removing the backslash put before each special character gives back the
/// text: escaping loses nothing.
pub open spec fn unescaped(s: Seq<char>) -> Seq<char>
    decreases s.len(),
{
    if s.len() == 0 {
        Seq::empty()
    } else if s.len() >= 2 && s[0] == '\\' && is_markdown_special(s[1]) {
        seq![s[1]] + unescaped(s.skip(2))
    } else {
        seq![s[0]] + unescaped(s.skip(1))
    }
}

proof fn lemma_escaped_append(a: Seq<char>, b: Seq<char>)
    ensures
        escaped(a + b) == escaped(a) + escaped(b),
    decreases b.len(),
{
    if b.len() == 0 {
        assert(a + b =~= a);
        assert(escaped(a) + escaped(b) =~= escaped(a));
    } else {
        lemma_escaped_append(a, b.drop_last());
        assert((a + b).drop_last() =~= a + b.drop_last());
        assert((a + b).last() == b.last());
        let c = b.last();
        let tail = if is_markdown_special(c) { seq!['\\', c] } else { seq![c] };
        assert(escaped(a) + escaped(b) =~= escaped(a) + escaped(b.drop_last()) + tail);
    }
}

proof fn lemma_escaped_single(c: char)
    ensures
        escaped(seq![c]) == (if is_markdown_special(c) { seq!['\\', c] } else { seq![c] }),
{
    assert(seq![c].drop_last() =~= Seq::<char>::empty());
    assert(escaped(Seq::<char>::empty()) == Seq::<char>::empty());
    assert(seq![c].last() == c);
    let tail = if is_markdown_special(c) { seq!['\\', c] } else { seq![c] };
    assert(escaped(seq![c]) == escaped(seq![c].drop_last()) + tail);
    assert(Seq::<char>::empty() + tail =~= tail);
}

proof fn lemma_escaped_first(s: Seq<char>)
    requires
        s.len() > 0,
    ensures
        escaped(s).len() > 0,
        !is_markdown_special(escaped(s)[0]),
        escaped(s) == escaped(seq![s[0]]) + escaped(s.skip(1)),
{
    assert(s =~= seq![s[0]] + s.skip(1));
    lemma_escaped_append(seq![s[0]], s.skip(1));
    lemma_escaped_single(s[0]);
}

/// The characters Telegram's MarkdownV2 reserves, written out one by one.
pub open spec fn markdown_v2_reserved(c: char) -> bool {
    ||| c == '_'
    ||| c == '*'
    ||| c == '['
    ||| c == ']'
    ||| c == '('
    ||| c == ')'
    ||| c == '~'
    ||| c == '`'
    ||| c == '>'
    ||| c == '#'
    ||| c == '+'
    ||| c == '-'
    ||| c == '='
    ||| c == '|'
    ||| c == '{'
    ||| c == '}'
    ||| c == '.'
    ||| c == '!'
}

/// Escaping works character by character: the empty text stays empty, and
/// appending a character appends it escaped, a backslash before it exactly
/// when MarkdownV2 reserves it; so each reserved character comes out as a
/// backslash and itself, and every other character as itself.
pub proof fn lemma_escape_each_character(s: Seq<char>, c: char)
    ensures
        escaped(Seq::<char>::empty()) == Seq::<char>::empty(),
        escaped(s.push(c)) == escaped(s) + (if markdown_v2_reserved(c) { seq!['\\', c] } else { seq![c] }),
        markdown_v2_reserved(c) ==> escaped(seq![c]) == seq!['\\', c],
        !markdown_v2_reserved(c) ==> escaped(seq![c]) == seq![c],
{
    assert(s.push(c).drop_last() =~= s);
    assert(s.push(c).last() == c);
    lemma_escaped_single(c);
}

/// Escaping loses nothing: dropping the backslash before each special
/// character of the escaped text gives back the original text.
pub proof fn lemma_unescape_escaped(s: Seq<char>)
    ensures
        unescaped(escaped(s)) == s,
    decreases s.len(),
{
    if s.len() > 0 {
        lemma_escaped_first(s);
        lemma_unescape_escaped(s.skip(1));
        let rest = escaped(s.skip(1));
        let c = s[0];
        lemma_escaped_single(c);
        if is_markdown_special(c) {
            assert(escaped(seq![c]) =~= seq!['\\', c]);
            let e = seq!['\\', c] + rest;
            assert(e.skip(2) =~= rest);
            assert(unescaped(e) =~= seq![c] + unescaped(rest));
        } else {
            assert(escaped(seq![c]) =~= seq![c]);
            let e = seq![c] + rest;
            assert(e.skip(1) =~= rest);
            if s.len() > 1 {
                lemma_escaped_first(s.skip(1));
            }
            assert(unescaped(e) =~= seq![c] + unescaped(rest));
        }
        assert(s =~= seq![c] + s.skip(1));
    }
}

/// The Bot API endpoint that sends a message with the given bot token.
pub fn telegram_send_url(bot_token: &str) -> (r: String)
    ensures
        r@ == "https://api.telegram.org/bot"@ + bot_token@ + "/sendMessage"@,
{
    crate::text::concat3("https://api.telegram.org/bot", bot_token, "/sendMessage")
}

/// The markdown content of a WeCom message: the title in bold, a blank line, the body.
pub fn wecom_content(n: &Notification) -> (r: String)
    ensures
        r@ == "**"@ + title_of(*n) + "**\n\n"@ + body_of(*n, false),
{
    let title = notification_title(n);
    let body = format_notification(n, false);
    let mut r = "**".to_owned();
    r.append(title.as_str());
    r.append("**\n\n");
    r.append(body.as_str());
    r
}

/// The text of a Telegram message: title and markdown body, escaped.
pub fn telegram_text(n: &Notification) -> (r: String)
    ensures
        r@ == escaped(title_of(*n) + "\n"@ + body_of(*n, true)),
{
    let title = notification_title(n);
    let body = format_notification(n, true);
    let text = crate::text::concat3(title.as_str(), "\n", body.as_str());
    escape_markdown(text.as_str())
}

/// The text of a WhatsApp message: title and plain body.
pub fn whatsapp_text(n: &Notification) -> (r: String)
    ensures
        r@ == title_of(*n) + "\n"@ + body_of(*n, false),
{
    let title = notification_title(n);
    let body = format_notification(n, false);
    crate::text::concat3(title.as_str(), "\n", body.as_str())
}

} // verus!
