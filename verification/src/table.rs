//! The endpoint table: a validated, immutable mapping from an HTTP path to
//! a destination topic and partition, built once at startup.

use vstd::prelude::*;
use crate::text::str_eq;
use vstd::string::StringExecFns;

verus! {

/// One configured forwarding rule: an HTTP path mapped to a broker topic
/// and partition.
#[derive(Debug)]
pub struct EndpointRule {
    /// Exact-match HTTP route key; must be non-empty and unique.
    pub path: String,
    /// Destination topic name; must be non-empty.
    pub kafka_topic: String,
    /// Destination partition number; range checking is left to the broker.
    pub kafka_partition: i32,
}

/// A configuration error found while validating the endpoint rules.
/// Any of these is fatal at startup: no table is built.
#[derive(Debug)]
pub enum ConfigError {
    /// A rule's `path` is the empty string.
    EmptyPath,
    /// The rule with this `path` has an empty topic.
    EmptyTopic { path: String },
    /// A second rule carries this `path`.
    DuplicatePath { path: String },
}

impl ConfigError {
    /// The human-readable description of the error, as startup reports it
    /// before exiting.
    pub fn message(&self) -> (r: String)
        ensures
            match self {
                ConfigError::EmptyPath => r@ == "Endpoint path cannot be empty"@,
                ConfigError::EmptyTopic { path } => r@ == "Kafka topic for path "@ + path@
                    + " cannot be empty"@,
                ConfigError::DuplicatePath { path } => r@ == "Duplicate path: "@ + path@,
            },
    {
        match self {
            ConfigError::EmptyPath => String::from_str("Endpoint path cannot be empty"),
            ConfigError::EmptyTopic { path } => {
                let mut r = String::from_str("Kafka topic for path ");
                r.append(path.as_str());
                r.append(" cannot be empty");
                r
            },
            ConfigError::DuplicatePath { path } => {
                let mut r = String::from_str("Duplicate path: ");
                r.append(path.as_str());
                r
            },
        }
    }
}

/// The rule at `i` is acceptable given the rules before it: non-empty path,
/// non-empty topic, and a path no earlier rule uses.
pub open spec fn rule_ok(rules: Seq<EndpointRule>, i: int) -> bool {
    &&& rules[i].path@.len() > 0
    &&& rules[i].kafka_topic@.len() > 0
    &&& forall|j: int| 0 <= j < i ==> rules[j].path@ != rules[i].path@
}

/// Every rule is acceptable: all paths non-empty and pairwise distinct,
/// all topics non-empty.
pub open spec fn rules_valid(rules: Seq<EndpointRule>) -> bool {
    forall|i: int| 0 <= i < rules.len() ==> rule_ok(rules, i)
}

/// `e` is the error owed for the offending rule at `i`: an empty path is
/// reported first, then an empty topic, then a duplicate path.
pub open spec fn error_for(rules: Seq<EndpointRule>, i: int, e: ConfigError) -> bool {
    if rules[i].path@.len() == 0 {
        e is EmptyPath
    } else if rules[i].kafka_topic@.len() == 0 {
        e is EmptyTopic && e->EmptyTopic_path@ == rules[i].path@
    } else {
        e is DuplicatePath && e->DuplicatePath_path@ == rules[i].path@
    }
}

/// The first rule in order that breaks validation.
pub open spec fn first_violation(rules: Seq<EndpointRule>, i: int) -> bool {
    &&& 0 <= i < rules.len()
    &&& !rule_ok(rules, i)
    &&& forall|k: int| 0 <= k < i ==> rule_ok(rules, k)
}

/// First-match lookup of `path` among the rules, returning the configured
/// (topic, partition). With valid rules the match, if any, is unique.
pub open spec fn lookup_spec(rules: Seq<EndpointRule>, path: Seq<char>) -> Option<(Seq<char>, i32)>
    decreases rules.len(),
{
    if rules.len() == 0 {
        None
    } else if rules[0].path@ == path {
        Some((rules[0].kafka_topic@, rules[0].kafka_partition))
    } else {
        lookup_spec(rules.drop_first(), path)
    }
}

/// If `i` is the first index whose path equals `path`, the lookup returns
/// exactly that rule's topic and partition.
pub proof fn lemma_lookup_first(rules: Seq<EndpointRule>, path: Seq<char>, i: int)
    requires
        0 <= i < rules.len(),
        rules[i].path@ == path,
        forall|k: int| 0 <= k < i ==> rules[k].path@ != path,
    ensures
        lookup_spec(rules, path) == Some((rules[i].kafka_topic@, rules[i].kafka_partition)),
    decreases i,
{
    if i > 0 {
        lemma_lookup_first(rules.drop_first(), path, i - 1);
    }
}

/// A path no rule carries is a lookup miss.
pub proof fn lemma_lookup_miss(rules: Seq<EndpointRule>, path: Seq<char>)
    requires
        forall|i: int| 0 <= i < rules.len() ==> rules[i].path@ != path,
    ensures
        lookup_spec(rules, path) is None,
    decreases rules.len(),
{
    if rules.len() > 0 {
        lemma_lookup_miss(rules.drop_first(), path);
    }
}

/// For a valid rule set, looking up any configured path yields exactly the
/// topic and partition that rule configures.
pub proof fn lemma_valid_lookup_hit(rules: Seq<EndpointRule>, i: int)
    requires
        rules_valid(rules),
        0 <= i < rules.len(),
    ensures
        lookup_spec(rules, rules[i].path@) == Some(
            (rules[i].kafka_topic@, rules[i].kafka_partition),
        ),
{
    assert(rule_ok(rules, i));
    lemma_lookup_first(rules, rules[i].path@, i);
}

/// The validated, immutable endpoint table. Built once during bootstrap;
/// never mutated afterwards.
#[derive(Debug)]
pub struct EndpointTable {
    rules: Vec<EndpointRule>,
}

impl View for EndpointTable {
    type V = Seq<EndpointRule>;

    closed spec fn view(&self) -> Seq<EndpointRule> {
        self.rules@
    }
}

impl EndpointTable {
    /// A built table always holds a valid rule set.
    pub open spec fn wf(&self) -> bool {
        rules_valid(self@)
    }

    /// Validate the rules in order and build the table. Succeeds exactly
    /// when every path is unique and non-empty and every topic is
    /// non-empty; otherwise reports the error owed for the first offending
    /// rule, and no table is produced.
    pub fn build(rules: Vec<EndpointRule>) -> (r: Result<EndpointTable, ConfigError>)
        ensures
            r is Ok <==> rules_valid(rules@),
            r matches Ok(t) ==> t@ == rules@ && t.wf(),
            r matches Err(e) ==> exists|i: int| first_violation(rules@, i) && error_for(
                rules@,
                i,
                e,
            ),
    {
        let n = rules.len();
        let mut i: usize = 0;
        while i < n
            invariant
                0 <= i <= n,
                n == rules@.len(),
                forall|k: int| 0 <= k < i ==> rule_ok(rules@, k),
            decreases n - i,
        {
            if rules[i].path.as_str().is_empty() {
                proof {
                    assert(first_violation(rules@, i as int));
                }
                return Err(ConfigError::EmptyPath);
            }
            if rules[i].kafka_topic.as_str().is_empty() {
                proof {
                    assert(first_violation(rules@, i as int));
                }
                return Err(ConfigError::EmptyTopic { path: rules[i].path.clone() });
            }
            let mut j: usize = 0;
            while j < i
                invariant
                    0 <= j <= i < n,
                    n == rules@.len(),
                    forall|k: int| 0 <= k < i ==> rule_ok(rules@, k),
                    forall|k: int| 0 <= k < j ==> rules@[k].path@ != rules@[i as int].path@,
                    rules@[i as int].path@.len() > 0,
                    rules@[i as int].kafka_topic@.len() > 0,
                decreases i - j,
            {
                if str_eq(rules[j].path.as_str(), rules[i].path.as_str()) {
                    proof {
                        assert(!rule_ok(rules@, i as int));
                        assert(first_violation(rules@, i as int));
                    }
                    return Err(ConfigError::DuplicatePath { path: rules[i].path.clone() });
                }
                j += 1;
            }
            proof {
                assert(rule_ok(rules@, i as int));
            }
            i += 1;
        }
        Ok(EndpointTable { rules })
    }

    /// Exact-match lookup: the configured (topic, partition) for `path`,
    /// or `None` when no rule carries it.
    pub fn lookup(&self, path: &str) -> (r: Option<(String, i32)>)
        ensures
            r matches Some(tp) ==> lookup_spec(self@, path@) == Some((tp.0@, tp.1)),
            r is None ==> lookup_spec(self@, path@) is None,
    {
        let n = self.rules.len();
        let mut i: usize = 0;
        while i < n
            invariant
                0 <= i <= n,
                n == self@.len(),
                forall|k: int| 0 <= k < i ==> self@[k].path@ != path@,
            decreases n - i,
        {
            if str_eq(self.rules[i].path.as_str(), path) {
                proof {
                    lemma_lookup_first(self@, path@, i as int);
                }
                return Some((self.rules[i].kafka_topic.clone(), self.rules[i].kafka_partition));
            }
            i += 1;
        }
        proof {
            lemma_lookup_miss(self@, path@);
        }
        None
    }

    /// The rule at position `i`, in configuration order.
    pub fn rule_at(&self, i: usize) -> (r: &EndpointRule)
        requires
            i < self@.len(),
        ensures
            *r == self@[i as int],
    {
        &self.rules[i]
    }

    /// The number of configured rules.
    pub fn len(&self) -> (n: usize)
        ensures
            n == self@.len(),
    {
        self.rules.len()
    }
}

} // verus!
