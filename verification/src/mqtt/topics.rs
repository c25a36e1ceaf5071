use vstd::prelude::*;

verus! {

/// The MQTT topics of one deployment, all under a common prefix.
#[derive(Clone, Debug)]
pub struct Topics {
    pub prefix: String,
}

/// `s` contains a topic-level separator.
pub open spec fn has_separator(s: Seq<char>) -> bool {
    s.contains('/')
}

/// The beginning that every health topic of `prefix` shares.
pub open spec fn health_head(prefix: Seq<char>) -> Seq<char> {
    prefix + "/simulator/health/"@
}

/// The server id a topic carries when it is the health topic of that server
/// under `prefix`: the topic is `{prefix}/simulator/health/{id}`, and neither
/// the prefix nor the id contains a `/` (the topic splits into exactly those
/// four levels). Any other topic carries none.
pub open spec fn health_topic_server(prefix: Seq<char>, topic: Seq<char>) -> Option<Seq<char>> {
    let head = health_head(prefix);
    if !has_separator(prefix) && head.len() <= topic.len() && topic.subrange(0, head.len() as int)
        == head && !has_separator(topic.subrange(head.len() as int, topic.len() as int)) {
        Some(topic.subrange(head.len() as int, topic.len() as int))
    } else {
        None
    }
}

/// The control topic of a server under `prefix`.
pub open spec fn control_topic_of(prefix: Seq<char>, server_id: Seq<char>) -> Seq<char> {
    prefix + "/simulator/control/"@ + server_id
}

fn has_slash(s: &str) -> (r: bool)
    ensures
        r == has_separator(s@),
{
    let n = s.unicode_len();
    let mut i: usize = 0;
    while i < n
        invariant
            n == s@.len(),
            i <= n,
            forall|j: int| 0 <= j < i ==> s@[j] != '/',
        decreases n - i,
    {
        if s.get_char(i) == '/' {
            assert(s@[i as int] == '/');
            return true;
        }
        i = i + 1;
    }
    false
}

impl Topics {
    /// The topics under `prefix`.
    pub fn new(prefix: String) -> (r: Self)
        ensures
            r.prefix@ == prefix@,
    {
        Topics { prefix }
    }

    /// The subscription filter that matches every server's health topic.
    pub fn health_wildcard(&self) -> (r: String)
        ensures
            r@ == self.prefix@ + "/simulator/health/+"@,
    {
        let mut t = self.prefix.clone();
        t.append("/simulator/health/+");
        t
    }

    /// Where the simulator publishes the reports of all servers in the
    /// format that names the server inside the report.
    pub fn health_data_topic(&self) -> (r: String)
        ensures
            r@ == self.prefix@ + "/simulator/health_data"@,
    {
        let mut t = self.prefix.clone();
        t.append("/simulator/health_data");
        t
    }

    /// Whether `topic` is the topic of reports that name their server.
    pub fn is_health_data_topic(&self, topic: &str) -> (r: bool)
        ensures
            r == (topic@ == self.prefix@ + "/simulator/health_data"@),
    {
        let expected = self.health_data_topic();
        topic.to_owned() == expected
    }

    /// Where the server list is published.
    pub fn config_topic(&self) -> (r: String)
        ensures
            r@ == self.prefix@ + "/simulator/config"@,
    {
        let mut t = self.prefix.clone();
        t.append("/simulator/config");
        t
    }

    /// Where commands that create or delete servers go.
    pub fn fleet_topic(&self) -> (r: String)
        ensures
            r@ == self.prefix@ + "/simulator/fleet"@,
    {
        let mut t = self.prefix.clone();
        t.append("/simulator/fleet");
        t
    }

    /// Where commands for one server go.
    pub fn control_topic(&self, server_id: &str) -> (r: String)
        ensures
            r@ == control_topic_of(self.prefix@, server_id@),
    {
        let mut t = self.prefix.clone();
        t.append("/simulator/control/");
        t.append(server_id);
        t
    }

    /// The server id of a health topic under this prefix, if `topic` is one.
    pub fn parse_health_topic(&self, topic: &str) -> (r: Option<String>)
        ensures
            match r {
                Some(id) => health_topic_server(self.prefix@, topic@) == Some(id@),
                None => health_topic_server(self.prefix@, topic@) is None,
            },
    {
        if has_slash(self.prefix.as_str()) {
            return None;
        }
        let mut head = self.prefix.clone();
        head.append("/simulator/health/");
        let hl = head.as_str().unicode_len();
        let tl = topic.unicode_len();
        if tl < hl {
            return None;
        }
        let first = topic.substring_char(0, hl).to_owned();
        if !(first == head) {
            return None;
        }
        let rest = topic.substring_char(hl, tl);
        if has_slash(rest) {
            return None;
        }
        Some(rest.to_owned())
    }
}

/// A server's health topic names that server: `{prefix}/simulator/health/{id}`
/// reads back as `id` when neither part contains a `/`.
pub proof fn lemma_health_topic_round_trip(prefix: Seq<char>, server_id: Seq<char>)
    requires
        !has_separator(prefix),
        !has_separator(server_id),
    ensures
        health_topic_server(prefix, health_head(prefix) + server_id) == Some(server_id),
{
    let topic = health_head(prefix) + server_id;
    let hl = health_head(prefix).len() as int;
    assert(topic.subrange(0, hl) =~= health_head(prefix));
    assert(topic.subrange(hl, topic.len() as int) =~= server_id);
}

/// The topic of reports that name their server is not a per-server health
/// topic: its last level is `health_data`, not a server under `health`.
pub proof fn lemma_health_data_topic_is_not_per_server(prefix: Seq<char>)
    ensures
        health_topic_server(prefix, prefix + "/simulator/health_data"@) is None,
{
    reveal_strlit("/simulator/health/");
    reveal_strlit("/simulator/health_data");
    let topic = prefix + "/simulator/health_data"@;
    let head = health_head(prefix);
    if !has_separator(prefix) && head.len() <= topic.len() && topic.subrange(0, head.len() as int)
        == head {
        let k: int = prefix.len() as int + 17;
        assert(topic.subrange(0, head.len() as int)[k] == head[k]);
        assert(head[k] == '/');
        assert(topic[k] == '_');
    }
}

/// A command topic is never taken for a health report.
pub proof fn lemma_control_topic_is_not_health(prefix: Seq<char>, server_id: Seq<char>)
    ensures
        health_topic_server(prefix, control_topic_of(prefix, server_id)) is None,
{
    reveal_strlit("/simulator/health/");
    reveal_strlit("/simulator/control/");
    let topic = control_topic_of(prefix, server_id);
    let head = health_head(prefix);
    if !has_separator(prefix) && head.len() <= topic.len() && topic.subrange(0, head.len() as int)
        == head {
        let k: int = prefix.len() as int + 11;
        assert(topic.subrange(0, head.len() as int)[k] == head[k]);
        assert(head[k] == 'h');
        assert(topic[k] == 'c');
    }
}

} // verus!
