//! Spot interruption notices: the queue and rule names of a cluster, the
//! notice and queue policy documents, and reading notices back.

use vstd::prelude::*;
use crate::aws::network::opt_view;
use crate::json::{json_as_str, json_document, json_index, parse_json, Json};

verus! {

/// The EventBridge pattern that matches every EC2 spot interruption warning.
pub const SPOT_EVENT_PATTERN: &'static str = "{\"source\":[\"aws.ec2\"],\"detail-type\":[\"EC2 Spot Instance Interruption Warning\"]}";

/// The id of the rule's queue target.
pub const SPOT_QUEUE_TARGET_ID: &'static str = "sqs-target";

/// The name of a cluster's interruption queue.
pub open spec fn queue_name_of(cluster_id: Seq<char>) -> Seq<char> {
    cluster_id + "-spot-interruptions"@
}

/// The name of a cluster's interruption rule.
pub open spec fn rule_name_of(cluster_id: Seq<char>) -> Seq<char> {
    cluster_id + "-spot-interruption-rule"@
}

/// The SQS queue that receives a cluster's spot interruption notices; the
/// same name is created at spawn, looked up when polling and deleted at
/// teardown.
pub fn spot_queue_name(cluster_id: &str) -> (r: String)
    ensures
        r@ == queue_name_of(cluster_id@),
{
    let mut r = String::from_str(cluster_id);
    r.append("-spot-interruptions");
    r
}

/// The EventBridge rule that routes interruption warnings to the queue.
pub fn spot_rule_name(cluster_id: &str) -> (r: String)
    ensures
        r@ == rule_name_of(cluster_id@),
{
    let mut r = String::from_str(cluster_id);
    r.append("-spot-interruption-rule");
    r
}

/// A cluster's queue and rule names never coincide.
pub proof fn lemma_queue_and_rule_names_differ(cluster_id: Seq<char>)
    ensures
        queue_name_of(cluster_id) != rule_name_of(cluster_id),
{
    reveal_strlit("-spot-interruptions");
    reveal_strlit("-spot-interruption-rule");
    assert(queue_name_of(cluster_id).len() != rule_name_of(cluster_id).len());
}

/// A lowercase hexadecimal digit.
pub open spec fn hex_digit(d: int) -> char {
    if d < 10 {
        (('0' as int) + d) as char
    } else {
        (('a' as int) + d - 10) as char
    }
}

/// One character inside a JSON string literal as serde_json writes it: the
/// quote and the backslash escaped with a backslash, backspace, tab, line
/// feed, form feed and carriage return as `\b \t \n \f \r`, the other
/// control characters below 0x20 as `\u00` and two lowercase hex digits,
/// every other character as itself.
pub open spec fn escaped_char(c: char) -> Seq<char> {
    if c == '"' {
        seq!['\\', '"']
    } else if c == '\\' {
        seq!['\\', '\\']
    } else if c as int == 0x08 {
        seq!['\\', 'b']
    } else if c == '\t' {
        seq!['\\', 't']
    } else if c == '\n' {
        seq!['\\', 'n']
    } else if c as int == 0x0c {
        seq!['\\', 'f']
    } else if c == '\r' {
        seq!['\\', 'r']
    } else if (c as int) < 0x20 {
        seq!['\\', 'u', '0', '0', hex_digit((c as int) / 16), hex_digit((c as int) % 16)]
    } else {
        seq![c]
    }
}

/// The characters of `s`, each escaped.
pub open spec fn escaped(s: Seq<char>) -> Seq<char>
    decreases s.len(),
{
    if s.len() == 0 {
        Seq::empty()
    } else {
        escaped(s.drop_last()) + escaped_char(s.last())
    }
}

/// The text of `s` as a JSON string literal, as serde_json writes it: a
/// quote, the escaped characters, a quote.
pub open spec fn json_string_literal(s: Seq<char>) -> Seq<char> {
    seq!['"'] + escaped(s) + seq!['"']
}

/// A character that a JSON string literal holds as itself.
pub open spec fn plain_char(c: char) -> bool {
    c != '"' && c != '\\' && (c as int) >= 0x20
}

/// A text without quotes, backslashes or control characters (such as an
/// instance id or an ARN) is written between quotes as it is: the notice
/// and the queue policy name exactly the given id and ARNs.
pub proof fn lemma_plain_literal(s: Seq<char>)
    requires
        forall|i: int| 0 <= i < s.len() ==> plain_char(#[trigger] s[i]),
    ensures
        json_string_literal(s) == seq!['"'] + s + seq!['"'],
    decreases s.len(),
{
    lemma_plain_escaped(s);
}

proof fn lemma_plain_escaped(s: Seq<char>)
    requires
        forall|i: int| 0 <= i < s.len() ==> plain_char(#[trigger] s[i]),
    ensures
        escaped(s) == s,
    decreases s.len(),
{
    if s.len() > 0 {
        assert forall|i: int| 0 <= i < s.drop_last().len() implies plain_char(#[trigger] s.drop_last()[i]) by {
            assert(s.drop_last()[i] == s[i]);
        }
        lemma_plain_escaped(s.drop_last());
        assert(plain_char(s[s.len() - 1]));
        assert(escaped_char(s.last()) == seq![s.last()]);
        assert(s.drop_last() + seq![s.last()] =~= s);
    }
}

/// Calls `serde_json::to_string` on a string. The contract claims what
/// serde_json's serializer does with a `str` (its `ESCAPE` table and
/// `write_char_escape`): the string literal `json_string_literal`.
/// Serializing a `str` into a `Vec` cannot fail, so the error arm is never
/// taken.
#[verifier::external_body]
fn quoted(s: &str) -> (r: String)
    ensures
        r@ == json_string_literal(s@),
{
    match serde_json::to_string(s) {
        Ok(t) => t,
        Err(_) => String::new(),
    }
}

/// The simulated interruption notice for an instance whose id, written as
/// a JSON string literal, is `id_literal` (members in key order, as
/// EventBridge delivers a real notice).
pub open spec fn notice_with(id_literal: Seq<char>) -> Seq<char> {
    "{\"detail\":{\"instance-action\":\"terminate\",\"instance-id\":"@ + id_literal
        + "},\"detail-type\":\"EC2 Spot Instance Interruption Warning\",\"source\":\"aws.ec2\",\"version\":\"0\"}"@
}

/// The simulated interruption notice for an instance.
pub open spec fn notice_text(instance_id: Seq<char>) -> Seq<char> {
    notice_with(json_string_literal(instance_id))
}

/// Writes the notice around an instance id already written as a JSON
/// string literal.
pub fn notice_from_literal(id_literal: &str) -> (r: String)
    ensures
        r@ == notice_with(id_literal@),
{
    let mut r = String::from_str("{\"detail\":{\"instance-action\":\"terminate\",\"instance-id\":");
    r.append(id_literal);
    r.append(
        "},\"detail-type\":\"EC2 Spot Instance Interruption Warning\",\"source\":\"aws.ec2\",\"version\":\"0\"}",
    );
    r
}

/// Writes the simulated interruption notice for an instance.
pub fn spot_notice_body(instance_id: &str) -> (r: String)
    ensures
        r@ == notice_text(instance_id@),
{
    let q = quoted(instance_id);
    notice_from_literal(q.as_str())
}

/// The queue policy that lets the rule (and only it) publish to the queue,
/// for ARNs already written as JSON string literals.
pub open spec fn policy_with(queue_literal: Seq<char>, rule_literal: Seq<char>) -> Seq<char> {
    "{\"Statement\":[{\"Action\":\"SQS:SendMessage\",\"Condition\":{\"ArnEquals\":{\"aws:SourceArn\":"@
        + rule_literal
        + "}},\"Effect\":\"Allow\",\"Principal\":{\"Service\":\"events.amazonaws.com\"},\"Resource\":"@
        + queue_literal + "}],\"Version\":\"2012-10-17\"}"@
}

/// The queue policy for a queue and the rule that feeds it.
pub open spec fn queue_policy_text(queue_arn: Seq<char>, rule_arn: Seq<char>) -> Seq<char> {
    policy_with(json_string_literal(queue_arn), json_string_literal(rule_arn))
}

/// Writes the queue policy around ARNs already written as JSON string
/// literals.
pub fn policy_from_literals(queue_literal: &str, rule_literal: &str) -> (r: String)
    ensures
        r@ == policy_with(queue_literal@, rule_literal@),
{
    let mut r = String::from_str(
        "{\"Statement\":[{\"Action\":\"SQS:SendMessage\",\"Condition\":{\"ArnEquals\":{\"aws:SourceArn\":",
    );
    r.append(rule_literal);
    r.append(
        "}},\"Effect\":\"Allow\",\"Principal\":{\"Service\":\"events.amazonaws.com\"},\"Resource\":",
    );
    r.append(queue_literal);
    r.append("}],\"Version\":\"2012-10-17\"}");
    r
}

/// Writes the queue policy for a queue and the rule that feeds it.
pub fn spot_queue_policy(queue_arn: &str, rule_arn: &str) -> (r: String)
    ensures
        r@ == queue_policy_text(queue_arn@, rule_arn@),
{
    let q = quoted(queue_arn);
    let r = quoted(rule_arn);
    policy_from_literals(q.as_str(), r.as_str())
}

/// The instance named by an interruption event: `detail.instance-id`.
pub open spec fn event_instance_id(event: Json) -> Option<Seq<char>> {
    json_as_str(json_index(json_index(event, "detail"@), "instance-id"@))
}

/// Reads the instance id out of an interruption event.
pub fn notice_instance_id(event: &Json) -> (r: Option<String>)
    ensures
        opt_view(r) == event_instance_id(*event),
{
    match event.index("detail").index("instance-id").as_str() {
        Some(s) => Some(s.clone()),
        None => None,
    }
}

/// Reads the instance id out of a queue message body: `None` when the body
/// is not JSON or names no instance.
pub fn interruption_instance_id(body: &str) -> (r: Option<String>)
    ensures
        opt_view(r) == match json_document(body@) {
            Some(event) => event_instance_id(event),
            None => None,
        },
{
    match parse_json(body) {
        Some(event) => notice_instance_id(&event),
        None => None,
    }
}

/// A tag of an EC2 resource as described (key and value may be absent).
pub struct TagRecord {
    pub key: Option<String>,
    pub value: Option<String>,
}

/// What the notice handling reads of a described instance.
pub struct TaggedInstanceRecord {
    pub tags: Vec<TagRecord>,
    pub private_ip: Option<String>,
}

/// The instance carries the tag `ClusterId` with the value `cluster_id`.
pub open spec fn tagged_for(tags: Seq<TagRecord>, cluster_id: Seq<char>) -> bool {
    exists|i: int|
        0 <= i < tags.len() && opt_view(#[trigger] tags[i].key) == Some("ClusterId"@) && opt_view(
            tags[i].value,
        ) == Some(cluster_id)
}

/// Whether the instance belongs to the cluster.
pub fn belongs_to_cluster(instance: &TaggedInstanceRecord, cluster_id: &str) -> (b: bool)
    ensures
        b == tagged_for(instance.tags@, cluster_id@),
{
    let key = String::from_str("ClusterId");
    let id = String::from_str(cluster_id);
    let mut i: usize = 0;
    while i < instance.tags.len()
        invariant
            i <= instance.tags.len(),
            key@ == "ClusterId"@,
            id@ == cluster_id@,
            forall|k: int|
                0 <= k < i ==> !(opt_view(#[trigger] instance.tags@[k].key) == Some("ClusterId"@)
                    && opt_view(instance.tags@[k].value) == Some(cluster_id@)),
        decreases instance.tags.len() - i,
    {
        let t = &instance.tags[i];
        let matches = match (&t.key, &t.value) {
            (Some(k), Some(v)) => *k == key && *v == id,
            _ => false,
        };
        if matches {
            return true;
        }
        i = i + 1;
    }
    false
}

/// The private addresses of the described instances that belong to the
/// cluster, in order.
pub open spec fn affected(instances: Seq<TaggedInstanceRecord>, cluster_id: Seq<char>) -> Seq<
    Seq<char>,
>
    decreases instances.len(),
{
    if instances.len() == 0 {
        Seq::empty()
    } else {
        let before = affected(instances.drop_last(), cluster_id);
        let last = instances.last();
        if tagged_for(last.tags@, cluster_id) && last.private_ip is Some {
            before.push(last.private_ip.unwrap()@)
        } else {
            before
        }
    }
}

/// The private addresses of the nodes hit by a notice: those of the
/// described instances that carry the cluster's tag and have an address.
pub fn affected_private_ips(instances: &Vec<TaggedInstanceRecord>, cluster_id: &str) -> (r: Vec<
    String,
>)
    ensures
        crate::text::views(r@) == affected(instances@, cluster_id@),
{
    let mut out: Vec<String> = Vec::new();
    let mut i: usize = 0;
    while i < instances.len()
        invariant
            i <= instances.len(),
            crate::text::views(out@) == affected(instances@.take(i as int), cluster_id@),
        decreases instances.len() - i,
    {
        assert(instances@.take(i + 1).drop_last() =~= instances@.take(i as int));
        assert(instances@.take(i + 1).last() == instances@[i as int]);
        if belongs_to_cluster(&instances[i], cluster_id) {
            match &instances[i].private_ip {
                Some(ip) => {
                    out.push(ip.clone());
                    assert(crate::text::views(out@) =~= crate::text::views(out@.drop_last()).push(
                        ip@,
                    ));
                },
                None => {},
            }
        }
        i = i + 1;
    }
    assert(instances@.take(instances.len() as int) =~= instances@);
    out
}

} // verus!
