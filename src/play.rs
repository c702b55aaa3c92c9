//! Decisions of the `play` command: whether it can run where it was
//! invoked, which channel to join, and whether the text names a resource or
//! is a search query.
use vstd::prelude::*;

verus! {

/// Where the audio comes from.
#[derive(Debug, PartialEq, Eq)]
pub enum PlaySource {
    /// A search for the text on the media source.
    Search { query: String },
    /// The resource at this address.
    Direct { url: String },
}

/// What the `play` command does.
#[derive(Debug, PartialEq, Eq)]
pub enum PlayPlan {
    /// It was invoked outside a server: reply and do nothing more.
    NotInGuild,
    /// The caller is in no voice channel of the server: reply and do nothing more.
    NotInVoiceChannel,
    /// Join the channel of the server and stream from the source.
    Join { guild_id: u64, channel_id: u64, source: PlaySource },
}

/// `PlaySource` with its text as a sequence of characters.
pub enum SourceView {
    Search { query: Seq<char> },
    Direct { url: Seq<char> },
}

/// `PlayPlan` with its source viewed.
pub enum PlanView {
    NotInGuild,
    NotInVoiceChannel,
    Join { guild_id: u64, channel_id: u64, source: SourceView },
}

impl View for PlaySource {
    type V = SourceView;

    open spec fn view(&self) -> SourceView {
        match self {
            PlaySource::Search { query } => SourceView::Search { query: query@ },
            PlaySource::Direct { url } => SourceView::Direct { url: url@ },
        }
    }
}

impl View for PlayPlan {
    type V = PlanView;

    open spec fn view(&self) -> PlanView {
        match self {
            PlayPlan::NotInGuild => PlanView::NotInGuild,
            PlayPlan::NotInVoiceChannel => PlanView::NotInVoiceChannel,
            PlayPlan::Join { guild_id, channel_id, source } => PlanView::Join {
                guild_id: *guild_id,
                channel_id: *channel_id,
                source: source@,
            },
        }
    }
}

/// A character that may begin a URL scheme: an ASCII letter.
pub open spec fn is_scheme_start(c: char) -> bool {
    ('a' <= c && c <= 'z') || ('A' <= c && c <= 'Z')
}

/// A character that may follow the first one in a URL scheme: an ASCII
/// letter or digit, `+`, `-` or `.`.
pub open spec fn is_scheme_char(c: char) -> bool {
    is_scheme_start(c) || ('0' <= c && c <= '9') || c == '+' || c == '-' || c == '.'
}

/// The text begins with a URL scheme and its `:`.
pub open spec fn has_scheme_prefix(text: Seq<char>) -> bool {
    exists|k: int|
        1 <= k < text.len() && #[trigger] text[k] == ':' && is_scheme_start(text[0]) && forall|i: int|
            1 <= i < k ==> #[trigger] is_scheme_char(text[i])
}

/// Text that begins with a URL scheme names a resource; any other text is a
/// search.
pub open spec fn source_for(text: Seq<char>) -> SourceView {
    if has_scheme_prefix(text) {
        SourceView::Direct { url: text }
    } else {
        SourceView::Search { query: text }
    }
}

/// The plan for `text`, given the server the command came from and the
/// voice channel in which the caller sits in that server.
pub open spec fn plan(text: Seq<char>, guild_id: Option<u64>, channel_id: Option<u64>) -> PlanView {
    match guild_id {
        Option::None => PlanView::NotInGuild,
        Option::Some(g) => match channel_id {
            Option::None => PlanView::NotInVoiceChannel,
            Option::Some(c) => PlanView::Join { guild_id: g, channel_id: c, source: source_for(text) },
        },
    }
}

fn scheme_start(c: char) -> (r: bool)
    ensures
        r == is_scheme_start(c),
{
    ('a' <= c && c <= 'z') || ('A' <= c && c <= 'Z')
}

fn scheme_char(c: char) -> (r: bool)
    ensures
        r == is_scheme_char(c),
{
    scheme_start(c) || ('0' <= c && c <= '9') || c == '+' || c == '-' || c == '.'
}

/// Whether the text begins with a URL scheme followed by `:`.
pub fn starts_with_scheme(text: &str) -> (r: bool)
    ensures
        r == has_scheme_prefix(text@),
{
    let n = text.unicode_len();
    if n == 0 || !scheme_start(text.get_char(0)) {
        return false;
    }
    let mut i: usize = 1;
    while i < n
        invariant
            1 <= i <= n,
            n == text@.len(),
            is_scheme_start(text@[0]),
            forall|j: int| 1 <= j < i ==> #[trigger] is_scheme_char(text@[j]),
        decreases n - i,
    {
        let c = text.get_char(i);
        if c == ':' {
            assert(1 <= i < text@.len() && text@[i as int] == ':' && forall|j: int|
                1 <= j < i ==> #[trigger] is_scheme_char(text@[j]));
            return true;
        }
        if !scheme_char(c) {
            assert forall|k: int| 1 <= k < text@.len() && text@[k] == ':' implies !(forall|j: int|
                1 <= j < k ==> #[trigger] is_scheme_char(text@[j])) by {
                if k > i {
                    assert(!is_scheme_char(text@[i as int]));
                } else {
                    assert(k != i);
                    assert(is_scheme_char(text@[k]));
                }
            }
            return false;
        }
        i = i + 1;
    }
    assert forall|k: int| 1 <= k < text@.len() && text@[k] == ':' implies !(forall|j: int|
        1 <= j < k ==> #[trigger] is_scheme_char(text@[j])) by {
        assert(is_scheme_char(text@[k]));
    }
    false
}

/// The source for the text that the caller gave.
pub fn play_source(text: &str) -> (r: PlaySource)
    ensures
        r@ == source_for(text@),
{
    if starts_with_scheme(text) {
        PlaySource::Direct { url: String::from_str(text) }
    } else {
        PlaySource::Search { query: String::from_str(text) }
    }
}

/// Decides what the command does; no channel is joined outside a server or
/// when the caller is in no voice channel.
pub fn plan_play(text: &str, guild_id: Option<u64>, channel_id: Option<u64>) -> (r: PlayPlan)
    ensures
        r@ == plan(text@, guild_id, channel_id),
{
    match guild_id {
        None => PlayPlan::NotInGuild,
        Some(g) => match channel_id {
            None => PlayPlan::NotInVoiceChannel,
            Some(c) => PlayPlan::Join { guild_id: g, channel_id: c, source: play_source(text) },
        },
    }
}

/// The first reply of the command, sent before anything else.
pub fn attempt_message(text: &str) -> (r: String)
    ensures
        r@ == "attempting to play: "@ + text@,
{
    String::from_str("attempting to play: ").concat(text)
}

/// The reply for a plan that ends the command without joining, if any.
pub fn plan_reply(p: &PlayPlan) -> (r: Option<String>)
    ensures
        p@ is NotInGuild ==> (r matches Option::Some(t) && t@ == "this command can only be used in servers"@),
        p@ is NotInVoiceChannel ==> (r matches Option::Some(t) && t@ == "you are not in a voice channel"@),
        p@ is Join ==> r is None,
{
    match p {
        PlayPlan::NotInGuild => Some(String::from_str("this command can only be used in servers")),
        PlayPlan::NotInVoiceChannel => Some(String::from_str("you are not in a voice channel")),
        PlayPlan::Join { .. } => None,
    }
}

/// The reply once the join was tried: `failure` holds the voice manager's
/// reason where the join failed.
pub fn join_reply(failure: Option<String>) -> (r: String)
    ensures
        failure is None ==> r@ == "playing song"@,
        failure matches Option::Some(reason) ==> r@ == "failed to join voice channel: "@ + reason@,
{
    match failure {
        None => String::from_str("playing song"),
        Some(reason) => String::from_str("failed to join voice channel: ").concat(reason.as_str()),
    }
}

} // verus!
