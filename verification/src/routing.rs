//! Which handler a broker message, an adapter request or an HTTP action goes
//! to.
use vstd::prelude::*;
use vstd::string::*;
use crate::error::BbsError;

verus! {

/// The pieces of `s` between occurrences of `c`, as `str::split` gives them:
/// empty text gives one empty piece.
pub open spec fn split_on(s: Seq<char>, c: char) -> Seq<Seq<char>>
    decreases s.len(),
{
    if s.len() == 0 {
        seq![Seq::<char>::empty()]
    } else {
        let rest = split_on(s.drop_last(), c);
        if s.last() == c {
            rest.push(Seq::<char>::empty())
        } else {
            rest.update(rest.len() - 1, rest.last().push(s.last()))
        }
    }
}

proof fn lemma_split_nonempty(s: Seq<char>, c: char)
    ensures
        split_on(s, c).len() >= 1,
    decreases s.len(),
{
    if s.len() > 0 {
        lemma_split_nonempty(s.drop_last(), c);
    }
}

/// Splitting text extended by text without the separator extends the last
/// piece.
proof fn lemma_split_append_plain(x: Seq<char>, y: Seq<char>, c: char)
    requires
        forall|i: int| 0 <= i < y.len() ==> y[i] != c,
    ensures
        split_on(x + y, c) == ({
            let sx = split_on(x, c);
            sx.update(sx.len() - 1, sx.last() + y)
        }),
    decreases y.len(),
{
    lemma_split_nonempty(x, c);
    let sx = split_on(x, c);
    if y.len() == 0 {
        assert(x + y =~= x);
        assert(sx.last() + y =~= sx.last());
        assert(sx.update(sx.len() - 1, sx.last() + y) =~= sx);
    } else {
        let y0 = y.drop_last();
        lemma_split_append_plain(x, y0, c);
        assert((x + y).drop_last() =~= x + y0);
        assert((x + y).last() == y.last());
        lemma_split_nonempty(x + y0, c);
        let prev = split_on(x + y0, c);
        assert(prev.last() == sx.last() + y0);
        assert(prev.last().push(y.last()) =~= sx.last() + y);
        assert(prev.update(prev.len() - 1, prev.last().push(y.last())) =~= sx.update(sx.len() - 1, sx.last() + y));
    }
}

/// A subject made of two dot-free parts joined by a dot splits into them.
proof fn lemma_split_two(a: Seq<char>, b: Seq<char>)
    requires
        forall|i: int| 0 <= i < a.len() ==> a[i] != '.',
        forall|i: int| 0 <= i < b.len() ==> b[i] != '.',
    ensures
        split_on(a + seq!['.'] + b, '.') == seq![a, b],
{
    lemma_split_append_plain(Seq::empty(), a, '.');
    assert(Seq::<char>::empty() + a =~= a);
    let sa = split_on(a, '.');
    assert(split_on(Seq::<char>::empty(), '.') == seq![Seq::<char>::empty()]);
    assert(Seq::<char>::empty() + a =~= a);
    assert(sa =~= seq![a]);
    let ad = a + seq!['.'];
    assert(ad.drop_last() =~= a);
    assert(ad.last() == '.');
    assert(split_on(ad, '.') =~= seq![a, Seq::<char>::empty()]);
    lemma_split_append_plain(ad, b, '.');
    assert(Seq::<char>::empty() + b =~= b);
    assert(split_on(ad + b, '.') =~= seq![a, b]);
}

/// Views of a sequence of strings.
pub open spec fn views(v: Seq<String>) -> Seq<Seq<char>> {
    v.map_values(|x: String| x@)
}

/// Splits text at each occurrence of a character.
pub fn split_at_char(s: &str, c: char) -> (r: Vec<String>)
    ensures
        views(r@) == split_on(s@, c),
{
    let n = s.unicode_len();
    let mut pieces: Vec<String> = Vec::new();
    let mut start: usize = 0;
    let mut i: usize = 0;
    assert(s@.subrange(0, 0) =~= Seq::<char>::empty());
    while i < n
        invariant
            n == s@.len(),
            start <= i <= n,
            views(pieces@).push(s@.subrange(start as int, i as int)) == split_on(s@.subrange(0, i as int), c),
        decreases n - i,
    {
        let ch = s.get_char(i);
        proof {
            let t = s@.subrange(0, i + 1);
            assert(t.drop_last() =~= s@.subrange(0, i as int));
            assert(t.last() == ch);
            lemma_split_nonempty(s@.subrange(0, i as int), c);
        }
        if ch == c {
            let piece = s.substring_char(start, i).to_owned();
            proof {
                assert(views(pieces@.push(piece)) =~= views(pieces@).push(piece@));
                assert(s@.subrange((i + 1) as int, (i + 1) as int) =~= Seq::<char>::empty());
            }
            pieces.push(piece);
            start = i + 1;
        } else {
            proof {
                assert(s@.subrange(start as int, (i + 1) as int) =~= s@.subrange(start as int, i as int).push(ch));
            }
        }
        i = i + 1;
    }
    let last = s.substring_char(start, n).to_owned();
    proof {
        assert(s@.subrange(0, n as int) =~= s@);
        assert(views(pieces@.push(last)) =~= views(pieces@).push(last@));
    }
    pieces.push(last);
    pieces
}

/// Where a broker message of the bulletin-board actor goes, by subject.
#[derive(Debug, Clone, PartialEq, Eq)]
pub enum SubjectRoute {
    /// `tea.system.init`: register with the host.
    SystemInit,
    /// `actor.tapp_bbs.echo...`: echo the message back.
    Echo,
    /// `adapter.<section>`: an adapter request of that section.
    Adapter(String),
    /// `layer1.event`: a layer-one event.
    Layer1Event,
    /// Anything else: nothing to do.
    Ignored,
}

/// Whether `r` is where a message with subject pieces `parts` goes.
pub open spec fn route_matches(r: SubjectRoute, parts: Seq<Seq<char>>) -> bool {
    if parts == seq!["tea"@, "system"@, "init"@] {
        r is SystemInit
    } else if parts.len() >= 3 && parts[0] == "actor"@ && parts[1] == "tapp_bbs"@ && parts[2] == "echo"@ {
        r is Echo
    } else if parts.len() == 2 && parts[0] == "adapter"@ {
        r matches SubjectRoute::Adapter(section) && section@ == parts[1]
    } else if parts == seq!["layer1"@, "event"@] {
        r is Layer1Event
    } else {
        r is Ignored
    }
}

/// Whether piece `i` exists and equals `lit`.
fn piece_is(pieces: &Vec<String>, i: usize, lit: &str) -> (r: bool)
    ensures
        r == (i < pieces@.len() && pieces@[i as int]@ == lit@),
{
    if i < pieces.len() {
        pieces[i] == String::from_str(lit)
    } else {
        false
    }
}

/// Where a broker message of the bulletin-board actor goes: its subject is
/// split at dots and matched against the known shapes.
pub fn route_subject(subject: &str) -> (r: SubjectRoute)
    ensures
        route_matches(r, split_on(subject@, '.')),
{
    let parts = split_at_char(subject, '.');
    let ghost p = split_on(subject@, '.');
    proof {
        assert forall|k: int| 0 <= k < parts@.len() implies #[trigger] parts@[k]@ == p[k] by {
            assert(views(parts@)[k] == parts@[k]@);
        }
        assert(views(parts@).len() == parts@.len());
    }
    let n = parts.len();
    if n == 3 && piece_is(&parts, 0, "tea") && piece_is(&parts, 1, "system") && piece_is(&parts, 2, "init") {
        assert(p =~= seq!["tea"@, "system"@, "init"@]);
        return SubjectRoute::SystemInit;
    }
    if n >= 3 && piece_is(&parts, 0, "actor") && piece_is(&parts, 1, "tapp_bbs") && piece_is(&parts, 2, "echo") {
        proof {
            if p == seq!["tea"@, "system"@, "init"@] {
                assert(p[0] == "tea"@);
                assert(n == 3);
                assert(parts@[1]@ == "system"@);
                assert(p[1] == "system"@);
            }
        }
        return SubjectRoute::Echo;
    }
    if n == 2 && piece_is(&parts, 0, "adapter") {
        let section = parts[1].clone();
        return SubjectRoute::Adapter(section);
    }
    if n == 2 && piece_is(&parts, 0, "layer1") && piece_is(&parts, 1, "event") {
        assert(p =~= seq!["layer1"@, "event"@]);
        return SubjectRoute::Layer1Event;
    }
    proof {
        if p == seq!["tea"@, "system"@, "init"@] {
            assert(parts@[0]@ == "tea"@ && parts@[1]@ == "system"@ && parts@[2]@ == "init"@);
        }
        if p == seq!["layer1"@, "event"@] {
            assert(parts@[0]@ == "layer1"@ && parts@[1]@ == "event"@);
        }
    }
    SubjectRoute::Ignored
}

/// Where a broker message of the state actor goes.
#[derive(Debug, Clone, Copy, PartialEq, Eq)]
pub enum StateRoute {
    /// `tea.system.init`: register for layer-one events.
    SystemInit,
    /// Anything else: nothing to do.
    Ignored,
}

/// Where a broker message of the state actor goes, by subject.
pub fn route_state_subject(subject: &str) -> (r: StateRoute)
    ensures
        (r == StateRoute::SystemInit) == (split_on(subject@, '.') == seq!["tea"@, "system"@, "init"@]),
{
    let parts = split_at_char(subject, '.');
    let ghost p = split_on(subject@, '.');
    proof {
        assert forall|k: int| 0 <= k < parts@.len() implies #[trigger] parts@[k]@ == p[k] by {
            assert(views(parts@)[k] == parts@[k]@);
        }
        assert(views(parts@).len() == parts@.len());
    }
    if parts.len() == 3 && piece_is(&parts, 0, "tea") && piece_is(&parts, 1, "system") && piece_is(&parts, 2, "init") {
        assert(p =~= seq!["tea"@, "system"@, "init"@]);
        StateRoute::SystemInit
    } else {
        proof {
            if p == seq!["tea"@, "system"@, "init"@] {
                assert(parts@[0]@ == "tea"@ && parts@[1]@ == "system"@ && parts@[2]@ == "init"@);
            }
        }
        StateRoute::Ignored
    }
}

/// Whether `s` begins with `prefix`.
pub open spec fn has_prefix(s: Seq<char>, prefix: Seq<char>) -> bool {
    prefix.len() <= s.len() && s.subrange(0, prefix.len() as int) == prefix
}

/// Whether text begins with a prefix.
pub fn starts_with(s: &str, prefix: &str) -> (r: bool)
    ensures
        r == has_prefix(s@, prefix@),
{
    let n = s.unicode_len();
    let m = prefix.unicode_len();
    if m > n {
        return false;
    }
    let mut i: usize = 0;
    while i < m
        invariant
            m == prefix@.len(),
            n == s@.len(),
            m <= n,
            i <= m,
            forall|j: int| 0 <= j < i ==> s@[j] == prefix@[j],
        decreases m - i,
    {
        if s.get_char(i) != prefix.get_char(i) {
            assert(s@.subrange(0, m as int)[i as int] != prefix@[i as int]);
            return false;
        }
        i = i + 1;
    }
    assert(s@.subrange(0, m as int) =~= prefix@);
    true
}

/// Whether an echoed message is answered: when its reply subject begins with
/// `reply`.
pub fn should_reply(reply_to: &str) -> (r: bool)
    ensures
        r == has_prefix(reply_to@, "reply"@),
{
    starts_with(reply_to, "reply")
}

/// Whether an adapter request of a section is handled: only `http` is.
pub fn adapter_handles(section: &str) -> (r: bool)
    ensures
        r == (section@ == "http"@),
{
    String::from_str(section) == String::from_str("http")
}

/// An action that the HTTP adapter can ask for.
#[derive(Debug, Clone, Copy, PartialEq, Eq)]
pub enum HttpAction {
    LoginPrepare,
    Login,
    Logout,
    PostMessage,
    LoadMessageList,
    ExtendMessage,
    DeleteMessage,
}

/// The action that an HTTP action name stands for.
pub open spec fn spec_http_action(name: Seq<char>) -> Option<HttpAction> {
    if name == "loginPrepare"@ {
        Some(HttpAction::LoginPrepare)
    } else if name == "login"@ {
        Some(HttpAction::Login)
    } else if name == "logout"@ {
        Some(HttpAction::Logout)
    } else if name == "postMessage"@ {
        Some(HttpAction::PostMessage)
    } else if name == "loadMessageList"@ {
        Some(HttpAction::LoadMessageList)
    } else if name == "extendMessage"@ {
        Some(HttpAction::ExtendMessage)
    } else if name == "deleteMessage"@ {
        Some(HttpAction::DeleteMessage)
    } else {
        None
    }
}

/// The action of an HTTP request, or the discard error for a name that is
/// not known.
pub fn http_action(name: &str) -> (r: Result<HttpAction, BbsError>)
    ensures
        spec_http_action(name@) matches Some(a) ==> r == Ok::<HttpAction, BbsError>(a),
        spec_http_action(name@) is None ==> r == Err::<HttpAction, BbsError>(BbsError::DiscardMessage),
{
    let n = String::from_str(name);
    if n == String::from_str("loginPrepare") {
        Ok(HttpAction::LoginPrepare)
    } else if n == String::from_str("login") {
        Ok(HttpAction::Login)
    } else if n == String::from_str("logout") {
        Ok(HttpAction::Logout)
    } else if n == String::from_str("postMessage") {
        Ok(HttpAction::PostMessage)
    } else if n == String::from_str("loadMessageList") {
        Ok(HttpAction::LoadMessageList)
    } else if n == String::from_str("extendMessage") {
        Ok(HttpAction::ExtendMessage)
    } else if n == String::from_str("deleteMessage") {
        Ok(HttpAction::DeleteMessage)
    } else {
        Err(BbsError::DiscardMessage)
    }
}

/// A subject `adapter.<section>`, with a section free of dots, goes to the
/// adapter of that section.
pub proof fn law_adapter_subject_routes_to_section(section: Seq<char>)
    requires
        forall|i: int| 0 <= i < section.len() ==> section[i] != '.',
    ensures
        forall|r: SubjectRoute| route_matches(r, split_on("adapter"@ + seq!['.'] + section, '.'))
            ==> (r matches SubjectRoute::Adapter(s) && s@ == section),
{
    reveal_strlit("adapter");
    reveal_strlit("tea");
    reveal_strlit("actor");
    reveal_strlit("layer1");
    lemma_split_two("adapter"@, section);
    let p = split_on("adapter"@ + seq!['.'] + section, '.');
    assert(p.len() == 2);
    assert(p[0] == "adapter"@);
    assert(p != seq!["tea"@, "system"@, "init"@]);
    assert("adapter"@ != "layer1"@) by {
        assert("adapter"@[0] != "layer1"@[0]);
    }
    assert(p != seq!["layer1"@, "event"@]) by {
        if p == seq!["layer1"@, "event"@] {
            assert(p[0] == "layer1"@);
        }
    }
}

/// Each HTTP action name stands for its own action, and every other name is
/// discarded.
pub proof fn law_http_action_table(name: Seq<char>)
    ensures
        (spec_http_action(name) == Some(HttpAction::LoginPrepare)) == (name == "loginPrepare"@),
        (spec_http_action(name) == Some(HttpAction::Login)) == (name == "login"@),
        (spec_http_action(name) == Some(HttpAction::Logout)) == (name == "logout"@),
        (spec_http_action(name) == Some(HttpAction::PostMessage)) == (name == "postMessage"@),
        (spec_http_action(name) == Some(HttpAction::LoadMessageList)) == (name == "loadMessageList"@),
        (spec_http_action(name) == Some(HttpAction::ExtendMessage)) == (name == "extendMessage"@),
        (spec_http_action(name) == Some(HttpAction::DeleteMessage)) == (name == "deleteMessage"@),
{
    reveal_strlit("loginPrepare");
    reveal_strlit("login");
    reveal_strlit("logout");
    reveal_strlit("postMessage");
    reveal_strlit("loadMessageList");
    reveal_strlit("extendMessage");
    reveal_strlit("deleteMessage");
    assert("loginPrepare"@.len() == 12);
    assert("login"@.len() == 5);
    assert("logout"@.len() == 6);
    assert("postMessage"@.len() == 11);
    assert("loadMessageList"@.len() == 15);
    assert("extendMessage"@.len() == 13);
    assert("deleteMessage"@.len() == 13);
    assert("extendMessage"@[0] != "deleteMessage"@[0]);
}

} // verus!
