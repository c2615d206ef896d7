use vstd::prelude::*;
use vstd::utf8::{encode_utf8, encode_utf8_decode_utf8};
use crate::base64::{base64_encode, base64_of, lemma_base64_injective};
use crate::error::{Error, ErrorKind, ErrorKindView, ErrorView};
use crate::text::join_text;

verus! {

/// The token that names the mail session opened with the given credentials:
/// their UTF-8 bytes in base64.
pub open spec fn session_token_of(credentials: Seq<char>) -> Seq<char> {
    base64_of(encode_utf8(credentials))
}

/// The message for a login whose session is already open.
pub open spec fn duplicate_session_message(token: Seq<char>) -> Seq<char> {
    "You already have a session connected to that server with token '"@ + token + "'"@
}

/// The answer to a login request: the token of the session to open, or the
/// reason the request is refused. `open_tokens` are the tokens of the user's
/// open mail sessions, `connection_limit` the most the user may hold.
pub open spec fn login_plan(
    mail_proxy_enabled: bool,
    credentials: Seq<char>,
    open_tokens: Seq<Seq<char>>,
    connection_limit: nat,
) -> Result<Seq<char>, ErrorView> {
    if !mail_proxy_enabled {
        Err(ErrorView {
            kind: ErrorKindView::BadRequest,
            message: "This Dust-Mail server does not operate as a mail proxy"@,
        })
    } else if open_tokens.len() >= connection_limit {
        Err(ErrorView {
            kind: ErrorKindView::BadRequest,
            message: "You have reached the limit of concurrent connections"@,
        })
    } else if open_tokens.contains(session_token_of(credentials)) {
        Err(ErrorView {
            kind: ErrorKindView::BadRequest,
            message: duplicate_session_message(session_token_of(credentials)),
        })
    } else {
        Ok(session_token_of(credentials))
    }
}

pub open spec fn tokens_view(tokens: Seq<String>) -> Seq<Seq<char>> {
    tokens.map_values(|t: String| t@)
}

fn holds_token(open_tokens: &Vec<String>, token: &String) -> (r: bool)
    ensures
        r == tokens_view(open_tokens@).contains(token@),
{
    let mut i: usize = 0;
    while i < open_tokens.len()
        invariant
            i <= open_tokens@.len(),
            forall|k: int| 0 <= k < i ==> open_tokens@[k]@ != token@,
        decreases open_tokens@.len() - i,
    {
        if open_tokens[i] == *token {
            assert(tokens_view(open_tokens@)[i as int] == token@);
            return true;
        }
        i = i + 1;
    }
    proof {
        if tokens_view(open_tokens@).contains(token@) {
            let k = choose|k: int| 0 <= k < tokens_view(open_tokens@).len() && tokens_view(open_tokens@)[k] == token@;
            assert(open_tokens@[k]@ == token@);
        }
    }
    false
}

/// Decides a mail login: the server must act as a mail proxy, the user must
/// hold fewer than `connection_limit` sessions and none for the same
/// `credentials`. On success, the token of the session to open.
pub fn login(
    mail_proxy_enabled: bool,
    credentials: &str,
    open_tokens: &Vec<String>,
    connection_limit: usize,
) -> (r: Result<String, Error>)
    ensures
        match r {
            Ok(token) => login_plan(mail_proxy_enabled, credentials@, tokens_view(open_tokens@), connection_limit as nat)
                == Ok::<Seq<char>, ErrorView>(token@),
            Err(e) => login_plan(mail_proxy_enabled, credentials@, tokens_view(open_tokens@), connection_limit as nat)
                == Err::<Seq<char>, ErrorView>(e@),
        },
{
    if !mail_proxy_enabled {
        return Err(Error::new(ErrorKind::BadRequest, "This Dust-Mail server does not operate as a mail proxy"));
    }
    let session_token = base64_encode(credentials);
    if open_tokens.len() >= connection_limit {
        return Err(Error::new(ErrorKind::BadRequest, "You have reached the limit of concurrent connections"));
    }
    if holds_token(open_tokens, &session_token) {
        let message = join_text(
            "You already have a session connected to that server with token '",
            join_text(session_token.as_str(), "'").as_str(),
        );
        proof {
            assert(message@ =~= duplicate_session_message(session_token@));
        }
        return Err(Error::new(ErrorKind::BadRequest, message.as_str()));
    }
    Ok(session_token)
}

/// A login is admitted only below the connection limit and only for a session
/// the user does not hold yet; so admitting it and opening the session keeps
/// the user within the limit and the user's tokens free of repeats.
pub proof fn lemma_admitted_login_keeps_sessions_bounded(
    mail_proxy_enabled: bool,
    credentials: Seq<char>,
    open_tokens: Seq<Seq<char>>,
    connection_limit: nat,
)
    requires
        login_plan(mail_proxy_enabled, credentials, open_tokens, connection_limit) is Ok,
    ensures
        ({
            let token = login_plan(mail_proxy_enabled, credentials, open_tokens, connection_limit)->Ok_0;
            &&& mail_proxy_enabled
            &&& open_tokens.len() < connection_limit
            &&& !open_tokens.contains(token)
            &&& open_tokens.push(token).len() <= connection_limit
            &&& open_tokens.no_duplicates() ==> open_tokens.push(token).no_duplicates()
        }),
{
    let token = session_token_of(credentials);
    if open_tokens.no_duplicates() {
        let pushed = open_tokens.push(token);
        assert forall|i: int, j: int| 0 <= i < pushed.len() && 0 <= j < pushed.len() && i != j implies pushed[i] != pushed[j] by {
            if i == open_tokens.len() {
                assert(pushed[j] == open_tokens[j]);
            } else if j == open_tokens.len() {
                assert(pushed[i] == open_tokens[i]);
            }
        }
    }
}

/// Logging in again with credentials whose session was opened is refused
/// with the duplicate-session error, whatever the limit.
pub proof fn lemma_repeated_login_refused(
    credentials: Seq<char>,
    open_tokens: Seq<Seq<char>>,
    connection_limit: nat,
)
    requires
        login_plan(true, credentials, open_tokens, connection_limit) is Ok,
    ensures
        ({
            let token = login_plan(true, credentials, open_tokens, connection_limit)->Ok_0;
            login_plan(true, credentials, open_tokens.push(token), connection_limit) is Err
        }),
{
    let token = session_token_of(credentials);
    assert(open_tokens.push(token)[open_tokens.len() as int] == token);
}

/// Different credentials never share a session token: a login is refused as
/// a duplicate only when the very same credentials already have a session.
pub proof fn lemma_session_tokens_distinct(a: Seq<char>, b: Seq<char>)
    requires
        a != b,
    ensures
        session_token_of(a) != session_token_of(b),
{
    if session_token_of(a) == session_token_of(b) {
        lemma_base64_injective(encode_utf8(a), encode_utf8(b));
        encode_utf8_decode_utf8(a);
        encode_utf8_decode_utf8(b);
    }
}

/// The view of the user's session tokens is their texts, one for one, in order.
pub proof fn lemma_tokens_view_texts(tokens: Seq<String>)
    ensures
        tokens_view(tokens).len() == tokens.len(),
        forall|i: int| 0 <= i < tokens.len() ==> #[trigger] tokens_view(tokens)[i] == tokens[i]@,
{
}

/// How a login request is answered. The session token is the standard base64
/// text of the credentials' UTF-8 bytes. The request is refused when the
/// server is no mail proxy; else when the user already holds as many sessions
/// as the limit allows; else when one of them has the same token (the message
/// then quotes it); in every other case the session is admitted with that token.
pub proof fn lemma_login_decision(
    mail_proxy_enabled: bool,
    credentials: Seq<char>,
    open_tokens: Seq<Seq<char>>,
    connection_limit: nat,
)
    ensures
        session_token_of(credentials) == base64_of(encode_utf8(credentials)),
        !mail_proxy_enabled ==> login_plan(mail_proxy_enabled, credentials, open_tokens, connection_limit)
            == Err::<Seq<char>, ErrorView>(ErrorView {
            kind: ErrorKindView::BadRequest,
            message: "This Dust-Mail server does not operate as a mail proxy"@,
        }),
        mail_proxy_enabled && open_tokens.len() >= connection_limit ==> login_plan(
            mail_proxy_enabled,
            credentials,
            open_tokens,
            connection_limit,
        ) == Err::<Seq<char>, ErrorView>(ErrorView {
            kind: ErrorKindView::BadRequest,
            message: "You have reached the limit of concurrent connections"@,
        }),
        mail_proxy_enabled && open_tokens.len() < connection_limit && open_tokens.contains(
            base64_of(encode_utf8(credentials)),
        ) ==> login_plan(mail_proxy_enabled, credentials, open_tokens, connection_limit) == Err::<
            Seq<char>,
            ErrorView,
        >(ErrorView {
            kind: ErrorKindView::BadRequest,
            message: "You already have a session connected to that server with token '"@ + base64_of(
                encode_utf8(credentials),
            ) + "'"@,
        }),
        mail_proxy_enabled && open_tokens.len() < connection_limit && !open_tokens.contains(
            base64_of(encode_utf8(credentials)),
        ) ==> login_plan(mail_proxy_enabled, credentials, open_tokens, connection_limit) == Ok::<
            Seq<char>,
            ErrorView,
        >(base64_of(encode_utf8(credentials))),
{
}

} // verus!
