//! The three response shapes and their JSON text.
//!
//! Each shape serializes to a fixed-form JSON object; the contracts state
//! the exact text, character for character, as a function of the field
//! values.

use vstd::prelude::*;
use crate::timestamp::{Timestamp, rfc3339_of};

verus! {

/// The character sequences of a list of key/value pairs.
pub open spec fn views_of(m: Seq<(String, String)>) -> Seq<(Seq<char>, Seq<char>)> {
    m.map_values(|p: (String, String)| (p.0@, p.1@))
}

/// One `"key":"value"` member of a JSON object.
pub open spec fn member_spec(k: Seq<char>, v: Seq<char>) -> Seq<char> {
    "\""@ + k + "\":\""@ + v + "\""@
}

/// The members of a JSON object in order, separated by commas.
pub open spec fn members_spec(m: Seq<(Seq<char>, Seq<char>)>) -> Seq<char>
    decreases m.len(),
{
    if m.len() == 0 {
        Seq::<char>::empty()
    } else if m.len() == 1 {
        member_spec(m[0].0, m[0].1)
    } else {
        members_spec(m.drop_last()) + ","@ + member_spec(m.last().0, m.last().1)
    }
}

/// A JSON object of string keys and string values, in the order given.
pub open spec fn object_spec(m: Seq<(Seq<char>, Seq<char>)>) -> Seq<char> {
    "{"@ + members_spec(m) + "}"@
}

/// The key/value pairs read as a map, later entries winning.
pub open spec fn map_of(m: Seq<(Seq<char>, Seq<char>)>) -> Map<Seq<char>, Seq<char>>
    decreases m.len(),
{
    if m.len() == 0 {
        Map::<Seq<char>, Seq<char>>::empty()
    } else {
        map_of(m.drop_last()).insert(m.last().0, m.last().1)
    }
}

/// Serialize a list of key/value pairs as a JSON object, in order.
pub fn json_object(pairs: &Vec<(String, String)>) -> (r: String)
    ensures
        r@ == object_spec(views_of(pairs@)),
{
    let ghost views = views_of(pairs@);
    let mut s = String::from_str("{");
    let mut i: usize = 0;
    while i < pairs.len()
        invariant
            i <= pairs.len(),
            views == views_of(pairs@),
            views.len() == pairs.len(),
            s@ == "{"@ + members_spec(views.take(i as int)),
        decreases pairs.len() - i,
    {
        if i > 0 {
            s.append(",");
        }
        s.append("\"");
        s.append(pairs[i].0.as_str());
        s.append("\":\"");
        s.append(pairs[i].1.as_str());
        s.append("\"");
        proof {
            assert(views.take(i + 1 as int).drop_last() =~= views.take(i as int));
            assert(views.take(i + 1 as int).last() == views[i as int]);
            assert(s@ =~= "{"@ + members_spec(views.take(i + 1 as int)));
        }
        i = i + 1;
    }
    proof {
        assert(views.take(pairs@.len() as int) =~= views);
    }
    s.append("}");
    proof {
        assert(s@ =~= object_spec(views_of(pairs@)));
    }
    s
}

/// The fixed greeting of the root endpoint.
pub open spec fn welcome_message_spec() -> Seq<char> {
    "Welcome to the Ping-Pong Server Rust Actix!"@
}

/// The JSON text of a ping-shaped response: a message, a timestamp in
/// RFC 3339 form, and a success flag.
pub open spec fn ping_json_spec(msg: Seq<char>, secs: int, success: bool) -> Seq<char> {
    "{\"message\":\""@ + msg + "\",\"timestamp\":\""@ + rfc3339_of(secs) + "\",\"success\":"@
        + (if success {
        "true"@
    } else {
        "false"@
    }) + "}"@
}

/// The JSON text of a health response: a status and a timestamp in
/// RFC 3339 form.
pub open spec fn health_json_spec(status: Seq<char>, secs: int) -> Seq<char> {
    "{\"status\":\""@ + status + "\",\"timestamp\":\""@ + rfc3339_of(secs) + "\"}"@
}

/// The JSON text of a root response: a message and an object of endpoint
/// names and paths.
pub open spec fn root_json_spec(msg: Seq<char>, endpoints: Seq<(Seq<char>, Seq<char>)>) -> Seq<
    char,
> {
    "{\"message\":\""@ + msg + "\",\"endpoints\":"@ + object_spec(endpoints) + "}"@
}

/// A message, the instant it was built, and whether the request succeeded.
pub struct PingResponse {
    pub message: String,
    pub timestamp: Timestamp,
    pub success: bool,
}

impl PingResponse {
    /// Well formed when the timestamp is in range.
    pub open spec fn wf(self) -> bool {
        self.timestamp.wf()
    }

    /// The exact JSON text of this response.
    pub open spec fn json_spec(self) -> Seq<char> {
        ping_json_spec(self.message@, self.timestamp.secs as int, self.success)
    }

    /// The reply of the ping endpoint: "pong", the given instant, success.
    pub fn pong(t: Timestamp) -> (r: PingResponse)
        requires
            t.wf(),
        ensures
            r.message@ == "pong"@,
            r.timestamp == t,
            r.success,
            r.wf(),
    {
        PingResponse { message: String::from_str("pong"), timestamp: t, success: true }
    }

    /// The reply of the default handler: "Not Found", the given instant,
    /// failure.
    pub fn not_found(t: Timestamp) -> (r: PingResponse)
        requires
            t.wf(),
        ensures
            r.message@ == "Not Found"@,
            r.timestamp == t,
            !r.success,
            r.wf(),
    {
        PingResponse { message: String::from_str("Not Found"), timestamp: t, success: false }
    }

    /// Serialize to JSON.
    pub fn to_json(&self) -> (r: String)
        requires
            self.wf(),
        ensures
            r@ == self.json_spec(),
    {
        let mut s = String::from_str("{\"message\":\"");
        s.append(self.message.as_str());
        s.append("\",\"timestamp\":\"");
        let ts = self.timestamp.rfc3339();
        s.append(ts.as_str());
        s.append("\",\"success\":");
        if self.success {
            s.append("true");
        } else {
            s.append("false");
        }
        s.append("}");
        proof {
            assert(s@ =~= self.json_spec());
        }
        s
    }
}

/// A service status and the instant it was observed.
pub struct HealthResponse {
    pub status: String,
    pub timestamp: Timestamp,
}

impl HealthResponse {
    /// Well formed when the timestamp is in range.
    pub open spec fn wf(self) -> bool {
        self.timestamp.wf()
    }

    /// The exact JSON text of this response.
    pub open spec fn json_spec(self) -> Seq<char> {
        health_json_spec(self.status@, self.timestamp.secs as int)
    }

    /// The reply of the health endpoint: "healthy" at the given instant.
    pub fn healthy(t: Timestamp) -> (r: HealthResponse)
        requires
            t.wf(),
        ensures
            r.status@ == "healthy"@,
            r.timestamp == t,
            r.wf(),
    {
        HealthResponse { status: String::from_str("healthy"), timestamp: t }
    }

    /// Serialize to JSON.
    pub fn to_json(&self) -> (r: String)
        requires
            self.wf(),
        ensures
            r@ == self.json_spec(),
    {
        let mut s = String::from_str("{\"status\":\"");
        s.append(self.status.as_str());
        s.append("\",\"timestamp\":\"");
        let ts = self.timestamp.rfc3339();
        s.append(ts.as_str());
        s.append("\"}");
        proof {
            assert(s@ =~= self.json_spec());
        }
        s
    }
}

/// A greeting and the table of endpoints the server offers.
pub struct RootResponse {
    pub message: String,
    pub endpoints: Vec<(String, String)>,
}

impl RootResponse {
    /// Well formed when no endpoint name repeats.
    pub open spec fn wf(self) -> bool {
        forall|i: int, j: int|
            0 <= i < j < self.endpoints@.len() ==> self.endpoints@[i].0@ != self.endpoints@[j].0@
    }

    /// The endpoint table read as a map.
    pub open spec fn endpoints_map(self) -> Map<Seq<char>, Seq<char>> {
        map_of(views_of(self.endpoints@))
    }

    /// The exact JSON text of this response.
    pub open spec fn json_spec(self) -> Seq<char> {
        root_json_spec(self.message@, views_of(self.endpoints@))
    }

    /// The reply of the root endpoint: the fixed greeting and the two
    /// routed endpoints, ping before health.
    pub fn welcome() -> (r: RootResponse)
        ensures
            r.message@ == welcome_message_spec(),
            views_of(r.endpoints@) == seq![("ping"@, "/ping"@), ("health"@, "/health"@)],
            r.wf(),
    {
        let mut endpoints: Vec<(String, String)> = Vec::new();
        endpoints.push((String::from_str("ping"), String::from_str("/ping")));
        endpoints.push((String::from_str("health"), String::from_str("/health")));
        let r = RootResponse {
            message: String::from_str("Welcome to the Ping-Pong Server Rust Actix!"),
            endpoints,
        };
        proof {
            assert(views_of(r.endpoints@) =~= seq![("ping"@, "/ping"@), ("health"@, "/health"@)]);
            reveal_strlit("ping");
            reveal_strlit("health");
            assert(r.endpoints@.len() == 2);
            assert(r.endpoints@[0].0@ == "ping"@);
            assert(r.endpoints@[1].0@ == "health"@);
            assert("ping"@.len() != "health"@.len());
            assert(r.wf());
        }
        r
    }

    /// Serialize to JSON.
    pub fn to_json(&self) -> (r: String)
        ensures
            r@ == self.json_spec(),
    {
        let mut s = String::from_str("{\"message\":\"");
        s.append(self.message.as_str());
        s.append("\",\"endpoints\":");
        let obj = json_object(&self.endpoints);
        s.append(obj.as_str());
        s.append("}");
        proof {
            assert(s@ =~= self.json_spec());
        }
        s
    }
}

} // verus!
