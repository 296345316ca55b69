//! The route table: an ordered list of path-prefix rules, each naming the
//! upstream base URL that requests under that prefix are forwarded to.
//!
//! Matching walks the rules in order and the first rule whose prefix begins
//! the request path wins. The table also carries the fixed gateway prefix
//! that is stripped from the path before it is appended to the upstream base
//! URL. The table is built once at process start and never changes.

use vstd::prelude::*;
use vstd::string::*;
use crate::bytestr::{is_prefix_of, push_all, starts_with};

verus! {

/// One routing rule: requests whose path begins with `prefix` go to the
/// service at `upstream`.
pub struct RouteRule {
    pub prefix: Vec<u8>,
    pub upstream: Vec<u8>,
}

/// The mathematical value of a rule.
pub ghost struct RuleView {
    pub prefix: Seq<u8>,
    pub upstream: Seq<u8>,
}

impl View for RouteRule {
    type V = RuleView;

    open spec fn view(&self) -> RuleView {
        RuleView { prefix: self.prefix@, upstream: self.upstream@ }
    }
}

/// The route table: the prefix stripped from every matched path, and the
/// ordered rules.
pub struct RouteTable {
    pub strip: Vec<u8>,
    pub rules: Vec<RouteRule>,
}

/// The mathematical value of the table.
pub ghost struct TableView {
    pub strip: Seq<u8>,
    pub rules: Seq<RuleView>,
}

impl View for RouteTable {
    type V = TableView;

    open spec fn view(&self) -> TableView {
        TableView { strip: self.strip@, rules: self.rules@.map_values(|r: RouteRule| r@) }
    }
}

/// `path` falls under this rule.
pub open spec fn rule_matches(rule: RuleView, path: Seq<u8>) -> bool {
    is_prefix_of(rule.prefix, path)
}

/// No rule of the table matches `path`.
pub open spec fn no_rule_matches(t: TableView, path: Seq<u8>) -> bool {
    forall|j: int| 0 <= j < t.rules.len() ==> !rule_matches(t.rules[j], path)
}

/// Rule `i` is the first rule of the table that matches `path`.
pub open spec fn matched_at(t: TableView, path: Seq<u8>, i: int) -> bool {
    &&& 0 <= i < t.rules.len()
    &&& rule_matches(t.rules[i], path)
    &&& forall|j: int| 0 <= j < i ==> !rule_matches(t.rules[j], path)
}

/// Finds the first rule matching `path`, if any.
pub fn match_route(t: &RouteTable, path: &[u8]) -> (r: Option<usize>)
    ensures
        match r {
            Some(i) => matched_at(t@, path@, i as int),
            None => no_rule_matches(t@, path@),
        },
{
    let mut i: usize = 0;
    while i < t.rules.len()
        invariant
            i <= t.rules@.len(),
            t@.rules.len() == t.rules@.len(),
            forall|j: int| 0 <= j < i ==> !rule_matches(t@.rules[j], path@),
        decreases t.rules@.len() - i,
    {
        if starts_with(path, t.rules[i].prefix.as_slice()) {
            return Some(i);
        }
        i = i + 1;
    }
    None
}

/// The path sent upstream: the gateway prefix is stripped when present,
/// otherwise the path goes through unchanged.
pub open spec fn strip_route_prefix(strip: Seq<u8>, path: Seq<u8>) -> Seq<u8> {
    if is_prefix_of(strip, path) {
        path.skip(strip.len() as int)
    } else {
        path
    }
}

/// The byte `?`, which introduces the query part of a URL.
pub const QUERY_MARK: u8 = 63;

/// The query part appended to the rewritten URL: `?` plus the query when one
/// is present, nothing otherwise.
pub open spec fn query_suffix(q: Option<Seq<u8>>) -> Seq<u8> {
    match q {
        Some(qs) => seq![QUERY_MARK] + qs,
        None => Seq::<u8>::empty(),
    }
}

/// The full target URL of a forwarded request: the upstream base, then the
/// stripped path, then the query.
pub open spec fn target_url_spec(
    upstream: Seq<u8>,
    strip: Seq<u8>,
    path: Seq<u8>,
    query: Option<Seq<u8>>,
) -> Seq<u8> {
    upstream + strip_route_prefix(strip, path) + query_suffix(query)
}

/// Builds the target URL, as `target_url_spec` describes.
pub fn build_target_url(upstream: &[u8], strip: &[u8], path: &[u8], query: &Option<Vec<u8>>) -> (r:
    Vec<u8>)
    ensures
        r@ == target_url_spec(
            upstream@,
            strip@,
            path@,
            match query {
                Some(q) => Some(q@),
                None => None,
            },
        ),
{
    let mut out: Vec<u8> = Vec::new();
    push_all(&mut out, upstream);
    if starts_with(path, strip) {
        let rest = vstd::slice::slice_subrange(path, strip.len(), path.len());
        push_all(&mut out, rest);
        proof {
            assert(rest@ =~= path@.skip(strip@.len() as int));
        }
    } else {
        push_all(&mut out, path);
    }
    match query {
        Some(q) => {
            out.push(QUERY_MARK);
            push_all(&mut out, q.as_slice());
            proof {
                assert(out@ =~= target_url_spec(upstream@, strip@, path@, Some(q@)));
            }
        },
        None => {
            proof {
                assert(out@ =~= target_url_spec(upstream@, strip@, path@, None));
            }
        },
    }
    out
}

/// The gateway prefix every route of this system sits under.
pub open spec fn api_prefix() -> Seq<u8> {
    "/api".spec_bytes()
}

/// The route prefixes of the two service groups: authentication and user
/// paths go to the first upstream, task and settings paths to the second.
pub open spec fn auth_route_prefix() -> Seq<u8> {
    "/api/auth".spec_bytes()
}

pub open spec fn users_route_prefix() -> Seq<u8> {
    "/api/users".spec_bytes()
}

pub open spec fn tasks_route_prefix() -> Seq<u8> {
    "/api/tasks".spec_bytes()
}

pub open spec fn settings_route_prefix() -> Seq<u8> {
    "/api/settings".spec_bytes()
}

/// The rules this gateway is configured with, in priority order.
pub open spec fn standard_rules(auth_upstream: Seq<u8>, tasks_upstream: Seq<u8>) -> Seq<RuleView> {
    seq![
        RuleView { prefix: auth_route_prefix(), upstream: auth_upstream },
        RuleView { prefix: users_route_prefix(), upstream: auth_upstream },
        RuleView { prefix: tasks_route_prefix(), upstream: tasks_upstream },
        RuleView { prefix: settings_route_prefix(), upstream: tasks_upstream },
    ]
}

impl RouteTable {
    /// The table of this system: authentication and user paths to
    /// `auth_upstream`, task and settings paths to `tasks_upstream`, with
    /// the gateway prefix stripped before forwarding.
    pub fn standard(auth_upstream: &[u8], tasks_upstream: &[u8]) -> (t: RouteTable)
        ensures
            t@.strip == api_prefix(),
            t@.rules == standard_rules(auth_upstream@, tasks_upstream@),
    {
        let mut rules: Vec<RouteRule> = Vec::new();
        rules.push(
            RouteRule {
                prefix: "/api/auth".as_bytes_vec(),
                upstream: vstd::slice::slice_to_vec(auth_upstream),
            },
        );
        rules.push(
            RouteRule {
                prefix: "/api/users".as_bytes_vec(),
                upstream: vstd::slice::slice_to_vec(auth_upstream),
            },
        );
        rules.push(
            RouteRule {
                prefix: "/api/tasks".as_bytes_vec(),
                upstream: vstd::slice::slice_to_vec(tasks_upstream),
            },
        );
        rules.push(
            RouteRule {
                prefix: "/api/settings".as_bytes_vec(),
                upstream: vstd::slice::slice_to_vec(tasks_upstream),
            },
        );
        let t = RouteTable { strip: "/api".as_bytes_vec(), rules };
        proof {
            assert(t@.rules =~= standard_rules(auth_upstream@, tasks_upstream@));
        }
        t
    }
}

} // verus!
