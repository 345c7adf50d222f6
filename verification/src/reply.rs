//! Whole replies: a status code, the fixed header set, and the JSON body
//! each handler produces.

use vstd::prelude::*;
use crate::method::Method;
use crate::response::{
    HealthResponse, PingResponse, RootResponse, health_json_spec, map_of, ping_json_spec,
    root_json_spec, views_of, welcome_message_spec,
};
use crate::router::{Route, route, route_spec};
use crate::timestamp::{Timestamp, rfc3339_of};

verus! {

/// An HTTP reply, ready for a transport to send: a status code, response
/// headers in order, and the body text.
pub struct Reply {
    pub status: u16,
    pub headers: Vec<(String, String)>,
    pub body: String,
}

/// The headers every reply carries: the JSON content type and a permissive
/// cross-origin policy (any origin, any method, any request header, and a
/// preflight cache lifetime of 3600 seconds).
pub open spec fn header_list_spec() -> Seq<(Seq<char>, Seq<char>)> {
    seq![
        ("Content-Type"@, "application/json"@),
        ("Access-Control-Allow-Origin"@, "*"@),
        ("Access-Control-Allow-Methods"@, "*"@),
        ("Access-Control-Allow-Headers"@, "*"@),
        ("Access-Control-Max-Age"@, "3600"@),
    ]
}

/// The status code of each handler: 200 for the three routed endpoints,
/// 404 for the default handler.
pub open spec fn status_spec(r: Route) -> u16 {
    match r {
        Route::NotFound => 404u16,
        _ => 200u16,
    }
}

/// The body each handler writes at the instant `t`: the fixed greeting and
/// endpoint table for the root endpoint, "pong" with success for ping,
/// "healthy" for health, and "Not Found" without success for everything
/// unmatched.
pub open spec fn body_spec(r: Route, t: Timestamp) -> Seq<char> {
    match r {
        Route::Root => root_json_spec(
            welcome_message_spec(),
            seq![("ping"@, "/ping"@), ("health"@, "/health"@)],
        ),
        Route::Ping => ping_json_spec("pong"@, t.secs as int, true),
        Route::Health => health_json_spec("healthy"@, t.secs as int),
        Route::NotFound => ping_json_spec("Not Found"@, t.secs as int, false),
    }
}

/// Build the header set every reply carries.
pub fn standard_headers() -> (h: Vec<(String, String)>)
    ensures
        views_of(h@) == header_list_spec(),
{
    let mut h: Vec<(String, String)> = Vec::new();
    h.push((String::from_str("Content-Type"), String::from_str("application/json")));
    h.push((String::from_str("Access-Control-Allow-Origin"), String::from_str("*")));
    h.push((String::from_str("Access-Control-Allow-Methods"), String::from_str("*")));
    h.push((String::from_str("Access-Control-Allow-Headers"), String::from_str("*")));
    h.push((String::from_str("Access-Control-Max-Age"), String::from_str("3600")));
    proof {
        assert(views_of(h@) =~= header_list_spec());
    }
    h
}

/// Answer the selected handler's reply as of the instant `t`.
pub fn reply_for(r: Route, t: Timestamp) -> (rep: Reply)
    requires
        t.wf(),
    ensures
        rep.status == status_spec(r),
        rep.body@ == body_spec(r, t),
        views_of(rep.headers@) == header_list_spec(),
{
    let body: String = match r {
        Route::Root => RootResponse::welcome().to_json(),
        Route::Ping => PingResponse::pong(t).to_json(),
        Route::Health => HealthResponse::healthy(t).to_json(),
        Route::NotFound => PingResponse::not_found(t).to_json(),
    };
    let status: u16 = match r {
        Route::NotFound => 404,
        _ => 200,
    };
    Reply { status, headers: standard_headers(), body }
}

/// Route a request and answer it as of the instant `t`.
pub fn handle_at(m: Method, path: &str, t: Timestamp) -> (rep: Reply)
    requires
        t.wf(),
    ensures
        rep.status == status_spec(route_spec(m, path@)),
        rep.body@ == body_spec(route_spec(m, path@), t),
        views_of(rep.headers@) == header_list_spec(),
{
    reply_for(route(m, path), t)
}

/// Route a request and answer it as of now. The clock decides the instant;
/// status, headers, and everything of the body but the embedded timestamp
/// are as `handle_at` states for whichever instant was read.
pub fn handle_now(m: Method, path: &str) -> (rep: Reply)
    ensures
        rep.status == status_spec(route_spec(m, path@)),
        views_of(rep.headers@) == header_list_spec(),
        exists|t: Timestamp| t.wf() && rep.body@ == body_spec(route_spec(m, path@), t),
{
    let t = Timestamp::now();
    let rep = handle_at(m, path, t);
    proof {
        assert(t.wf() && rep.body@ == body_spec(route_spec(m, path@), t));
    }
    rep
}

/// Whether a handler's body embeds the instant it was written: every body
/// but the root endpoint's does.
pub open spec fn body_has_timestamp(r: Route) -> bool {
    r != Route::Root
}

/// The part of a handler's body before the embedded timestamp. Neither it
/// nor the suffix depends on the instant.
pub open spec fn body_ts_prefix(r: Route) -> Seq<char> {
    match r {
        Route::Root => Seq::<char>::empty(),
        Route::Ping => "{\"message\":\""@ + "pong"@ + "\",\"timestamp\":\""@,
        Route::Health => "{\"status\":\""@ + "healthy"@ + "\",\"timestamp\":\""@,
        Route::NotFound => "{\"message\":\""@ + "Not Found"@ + "\",\"timestamp\":\""@,
    }
}

/// The part of a handler's body after the embedded timestamp.
pub open spec fn body_ts_suffix(r: Route) -> Seq<char> {
    match r {
        Route::Root => Seq::<char>::empty(),
        Route::Ping => "\",\"success\":"@ + "true"@ + "}"@,
        Route::Health => "\"}"@,
        Route::NotFound => "\",\"success\":"@ + "false"@ + "}"@,
    }
}

/// Two replies to one request are structurally identical apart from the
/// embedded timestamp: each handler's body is a fixed prefix, the
/// timestamp's text, and a fixed suffix, and the root endpoint's body does
/// not mention the instant at all.
pub proof fn lemma_timestamp_only_difference(r: Route, t: Timestamp)
    ensures
        body_has_timestamp(r) ==> body_spec(r, t) == body_ts_prefix(r) + rfc3339_of(
            t.secs as int,
        ) + body_ts_suffix(r),
        !body_has_timestamp(r) ==> forall|t2: Timestamp| body_spec(r, t) == body_spec(r, t2),
{
    match r {
        Route::Root => {
        },
        Route::Ping => {
            assert(body_spec(r, t) =~= body_ts_prefix(r) + rfc3339_of(t.secs as int)
                + body_ts_suffix(r));
        },
        Route::Health => {
            assert(body_spec(r, t) =~= body_ts_prefix(r) + rfc3339_of(t.secs as int)
                + body_ts_suffix(r));
        },
        Route::NotFound => {
            assert(body_spec(r, t) =~= body_ts_prefix(r) + rfc3339_of(t.secs as int)
                + body_ts_suffix(r));
        },
    }
}

/// Every reply carries the unrestricted cross-origin origin header.
pub proof fn lemma_cors_header()
    ensures
        header_list_spec().contains(("Access-Control-Allow-Origin"@, "*"@)),
{
    assert(header_list_spec()[1] == ("Access-Control-Allow-Origin"@, "*"@));
}

/// `GET /` is answered with status 200, the fixed greeting, and an
/// endpoint table holding exactly the keys "ping" and "health", mapped to
/// "/ping" and "/health".
pub proof fn lemma_root_reply(m: Method, path: Seq<char>, t: Timestamp)
    requires
        m == Method::Get,
        path == "/"@,
    ensures
        status_spec(route_spec(m, path)) == 200,
        body_spec(route_spec(m, path), t) == root_json_spec(
            welcome_message_spec(),
            seq![("ping"@, "/ping"@), ("health"@, "/health"@)],
        ),
        map_of(seq![("ping"@, "/ping"@), ("health"@, "/health"@)]).dom() == set!["ping"@, "health"@],
        map_of(seq![("ping"@, "/ping"@), ("health"@, "/health"@)])["ping"@] == "/ping"@,
        map_of(seq![("ping"@, "/ping"@), ("health"@, "/health"@)])["health"@] == "/health"@,
{
    reveal_strlit("ping");
    reveal_strlit("health");
    let s = seq![("ping"@, "/ping"@), ("health"@, "/health"@)];
    assert(s.drop_last() =~= seq![("ping"@, "/ping"@)]);
    assert(seq![("ping"@, "/ping"@)].drop_last() =~= Seq::<(Seq<char>, Seq<char>)>::empty());
    assert(map_of(Seq::<(Seq<char>, Seq<char>)>::empty()) == Map::<Seq<char>, Seq<char>>::empty());
    assert(map_of(seq![("ping"@, "/ping"@)]) == Map::<Seq<char>, Seq<char>>::empty().insert(
        "ping"@,
        "/ping"@,
    ));
    assert(map_of(s) == map_of(seq![("ping"@, "/ping"@)]).insert("health"@, "/health"@));
    assert("ping"@.len() != "health"@.len());
    assert(map_of(s).dom() =~= set!["ping"@, "health"@]);
}

/// `GET /ping` is answered with status 200 and a body whose message is
/// "pong", whose success flag is set, and whose timestamp is the given
/// instant's RFC 3339 text.
pub proof fn lemma_ping_reply(m: Method, path: Seq<char>, t: Timestamp)
    requires
        m == Method::Get,
        path == "/ping"@,
    ensures
        status_spec(route_spec(m, path)) == 200,
        body_spec(route_spec(m, path), t) == ping_json_spec("pong"@, t.secs as int, true),
{
    reveal_strlit("/");
    reveal_strlit("/ping");
    assert("/"@.len() == 1);
    assert("/ping"@.len() == 5);
}

/// `GET /health` is answered with status 200 and a body whose status field
/// is "healthy" and whose timestamp is the given instant's RFC 3339 text.
pub proof fn lemma_health_reply(m: Method, path: Seq<char>, t: Timestamp)
    requires
        m == Method::Get,
        path == "/health"@,
    ensures
        status_spec(route_spec(m, path)) == 200,
        body_spec(route_spec(m, path), t) == health_json_spec("healthy"@, t.secs as int),
{
    reveal_strlit("/");
    reveal_strlit("/ping");
    reveal_strlit("/health");
    assert("/"@.len() == 1);
    assert("/ping"@.len() == 5);
    assert("/health"@.len() == 7);
}

/// Every request that no route matches is answered with status 404 and a
/// body whose message is "Not Found" and whose success flag is clear.
pub proof fn lemma_unmatched_reply(m: Method, path: Seq<char>, t: Timestamp)
    requires
        route_spec(m, path) == Route::NotFound,
    ensures
        status_spec(route_spec(m, path)) == 404,
        body_spec(route_spec(m, path), t) == ping_json_spec("Not Found"@, t.secs as int, false),
{
}

} // verus!
