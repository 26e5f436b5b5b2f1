//! The typed results of the API's operations, and verified decoders from
//! JSON trees into them.
//!
//! Each decoder returns `Some` exactly when the tree matches the schema,
//! and then every field of the result equals the corresponding field of
//! the source tree: a required field must be present with the right type,
//! an optional field may be absent or null, and unknown keys are ignored.

use vstd::prelude::*;

use crate::json::{lookup, spec_lookup, Json};

verus! {

/// The view of an optional owned string.
pub open spec fn view_opt_string(o: Option<String>) -> Option<Seq<char>> {
    match o {
        Some(s) => Some(s@),
        None => None,
    }
}

/// An optional string field: absent or null means unset; a value of any
/// other type is a schema mismatch.
pub open spec fn spec_opt_str(entries: Seq<(String, Json)>, key: Seq<char>) -> Option<
    Option<Seq<char>>,
> {
    match spec_lookup(entries, key) {
        None => Some(None),
        Some(Json::Null) => Some(None),
        Some(Json::Str(s)) => Some(Some(s@)),
        Some(_) => None,
    }
}

/// A required boolean field.
pub open spec fn spec_req_bool(entries: Seq<(String, Json)>, key: Seq<char>) -> Option<bool> {
    match spec_lookup(entries, key) {
        Some(Json::Bool(b)) => Some(b),
        _ => None,
    }
}

/// A required string field.
pub open spec fn spec_req_str(entries: Seq<(String, Json)>, key: Seq<char>) -> Option<Seq<char>> {
    match spec_lookup(entries, key) {
        Some(Json::Str(s)) => Some(s@),
        _ => None,
    }
}

/// A required integer field that must fit the result type.
pub open spec fn spec_req_i32(entries: Seq<(String, Json)>, key: Seq<char>) -> Option<i32> {
    match spec_lookup(entries, key) {
        Some(Json::Int(n)) => if i32::MIN as int <= n as int <= i32::MAX as int {
            Some(n as i32)
        } else {
            None
        },
        _ => None,
    }
}

/// An optional integer field: absent or null means unset.
pub open spec fn spec_opt_i32(entries: Seq<(String, Json)>, key: Seq<char>) -> Option<
    Option<i32>,
> {
    match spec_lookup(entries, key) {
        None => Some(None),
        Some(Json::Null) => Some(None),
        Some(Json::Int(n)) => if i32::MIN as int <= n as int <= i32::MAX as int {
            Some(Some(n as i32))
        } else {
            None
        },
        Some(_) => None,
    }
}

fn get_opt_str(entries: &Vec<(String, Json)>, key: &str) -> (r: Option<Option<String>>)
    ensures
        match r {
            Some(v) => spec_opt_str(entries@, key@) == Some(view_opt_string(v)),
            None => spec_opt_str(entries@, key@) is None,
        },
{
    match lookup(entries, key) {
        None => Some(None),
        Some(Json::Null) => Some(None),
        Some(Json::Str(s)) => Some(Some(s.clone())),
        Some(_) => None,
    }
}

fn get_req_bool(entries: &Vec<(String, Json)>, key: &str) -> (r: Option<bool>)
    ensures
        r == spec_req_bool(entries@, key@),
{
    match lookup(entries, key) {
        Some(Json::Bool(b)) => Some(*b),
        _ => None,
    }
}

fn get_req_str(entries: &Vec<(String, Json)>, key: &str) -> (r: Option<String>)
    ensures
        view_opt_string(r) == spec_req_str(entries@, key@),
{
    match lookup(entries, key) {
        Some(Json::Str(s)) => Some(s.clone()),
        _ => None,
    }
}

fn get_req_i32(entries: &Vec<(String, Json)>, key: &str) -> (r: Option<i32>)
    ensures
        r == spec_req_i32(entries@, key@),
{
    match lookup(entries, key) {
        Some(Json::Int(n)) => {
            if *n >= i32::MIN as i64 && *n <= i32::MAX as i64 {
                Some(*n as i32)
            } else {
                None
            }
        },
        _ => None,
    }
}

fn get_opt_i32(entries: &Vec<(String, Json)>, key: &str) -> (r: Option<Option<i32>>)
    ensures
        r == spec_opt_i32(entries@, key@),
{
    match lookup(entries, key) {
        None => Some(None),
        Some(Json::Null) => Some(None),
        Some(Json::Int(n)) => {
            if *n >= i32::MIN as i64 && *n <= i32::MAX as i64 {
                Some(Some(*n as i32))
            } else {
                None
            }
        },
        Some(_) => None,
    }
}

/// One reported moderation issue.
#[derive(Clone, Debug)]
pub struct ModerationIssue {
    pub term: Option<String>,
    pub context: Option<String>,
}

/// The view of one reported moderation issue.
pub ghost struct ModerationIssueV {
    pub term: Option<Seq<char>>,
    pub context: Option<Seq<char>>,
}

impl View for ModerationIssue {
    type V = ModerationIssueV;

    open spec fn view(&self) -> ModerationIssueV {
        ModerationIssueV { term: view_opt_string(self.term), context: view_opt_string(self.context) }
    }
}

/// Whether automatic redaction of unsafe content or of personally
/// identifiable information was applied.
#[derive(Clone, Copy, Debug, PartialEq, Eq, Structural)]
pub struct AddonUsage {
    pub replaced_unsafe: bool,
    pub replaced_pii: bool,
}

/// The result of a moderation call.
#[derive(Clone, Debug)]
pub struct ModerationResponse {
    pub is_clean: bool,
    pub severity: Option<String>,
    pub category_scores: Option<Vec<(String, String)>>,
    pub issues: Option<Vec<ModerationIssue>>,
    pub reason: Option<String>,
    pub is_bypass_attempt: bool,
    pub safe_content: Option<String>,
    pub addons: Option<AddonUsage>,
}

/// The view of a moderation result.
pub ghost struct ModerationResponseV {
    pub is_clean: bool,
    pub severity: Option<Seq<char>>,
    pub category_scores: Option<Seq<(Seq<char>, Seq<char>)>>,
    pub issues: Option<Seq<ModerationIssueV>>,
    pub reason: Option<Seq<char>>,
    pub is_bypass_attempt: bool,
    pub safe_content: Option<Seq<char>>,
    pub addons: Option<AddonUsage>,
}

/// The view of an optional list of category scores.
pub open spec fn view_opt_scores(o: Option<Vec<(String, String)>>) -> Option<
    Seq<(Seq<char>, Seq<char>)>,
> {
    match o {
        Some(v) => Some(v@.map_values(|e: (String, String)| (e.0@, e.1@))),
        None => None,
    }
}

/// The view of an optional list of issues.
pub open spec fn view_opt_issues(o: Option<Vec<ModerationIssue>>) -> Option<Seq<ModerationIssueV>> {
    match o {
        Some(v) => Some(v@.map_values(|e: ModerationIssue| e@)),
        None => None,
    }
}

impl View for ModerationResponse {
    type V = ModerationResponseV;

    open spec fn view(&self) -> ModerationResponseV {
        ModerationResponseV {
            is_clean: self.is_clean,
            severity: view_opt_string(self.severity),
            category_scores: view_opt_scores(self.category_scores),
            issues: view_opt_issues(self.issues),
            reason: view_opt_string(self.reason),
            is_bypass_attempt: self.is_bypass_attempt,
            safe_content: view_opt_string(self.safe_content),
            addons: self.addons,
        }
    }
}

/// The account's usage and quota report.
#[derive(Clone, Debug)]
pub struct UsageResponse {
    pub tier: String,
    pub rate_limit: i32,
    pub token_limit: Option<i32>,
    pub tokens_used: i32,
    pub remaining_tokens: i32,
}

/// The view of a usage report.
pub ghost struct UsageResponseV {
    pub tier: Seq<char>,
    pub rate_limit: i32,
    pub token_limit: Option<i32>,
    pub tokens_used: i32,
    pub remaining_tokens: i32,
}

impl View for UsageResponse {
    type V = UsageResponseV;

    open spec fn view(&self) -> UsageResponseV {
        UsageResponseV {
            tier: self.tier@,
            rate_limit: self.rate_limit,
            token_limit: self.token_limit,
            tokens_used: self.tokens_used,
            remaining_tokens: self.remaining_tokens,
        }
    }
}

/// The conventional error body of a failed call: both fields optional,
/// independently tolerated as absent.
#[derive(Clone, Debug)]
pub struct ProblemDetails {
    pub detail: Option<String>,
    pub title: Option<String>,
}

/// The view of an error body.
pub ghost struct ProblemDetailsV {
    pub detail: Option<Seq<char>>,
    pub title: Option<Seq<char>>,
}

impl View for ProblemDetails {
    type V = ProblemDetailsV;

    open spec fn view(&self) -> ProblemDetailsV {
        ProblemDetailsV {
            detail: view_opt_string(self.detail),
            title: view_opt_string(self.title),
        }
    }
}

/// What one element of the `issues` array decodes to, if it matches.
pub open spec fn spec_decode_issue(j: Json) -> Option<ModerationIssueV> {
    match j {
        Json::Obj(e) => match (spec_opt_str(e@, "term"@), spec_opt_str(e@, "context"@)) {
            (Some(t), Some(c)) => Some(ModerationIssueV { term: t, context: c }),
            _ => None,
        },
        _ => None,
    }
}

/// What a whole `issues` array decodes to: every element must match.
pub open spec fn spec_decode_issues(s: Seq<Json>) -> Option<Seq<ModerationIssueV>>
    decreases s.len(),
{
    if s.len() == 0 {
        Some(Seq::empty())
    } else {
        match (spec_decode_issues(s.drop_last()), spec_decode_issue(s.last())) {
            (Some(rest), Some(v)) => Some(rest.push(v)),
            _ => None,
        }
    }
}

/// One element that does not match spoils the whole array.
proof fn lemma_decode_issues_fail(s: Seq<Json>, i: int)
    requires
        0 <= i < s.len(),
        spec_decode_issue(s[i]) is None,
    ensures
        spec_decode_issues(s) is None,
    decreases s.len(),
{
    if i < s.len() - 1 {
        lemma_decode_issues_fail(s.drop_last(), i);
    }
}

/// What a `categoryScores` object decodes to: every value must be a
/// string; keys are kept in the order they arrive.
pub open spec fn spec_decode_scores(entries: Seq<(String, Json)>) -> Option<
    Seq<(Seq<char>, Seq<char>)>,
>
    decreases entries.len(),
{
    if entries.len() == 0 {
        Some(Seq::empty())
    } else {
        match (spec_decode_scores(entries.drop_last()), entries.last().1) {
            (Some(rest), Json::Str(s)) => Some(rest.push((entries.last().0@, s@))),
            _ => None,
        }
    }
}

/// One non-string value spoils the whole scores object.
proof fn lemma_decode_scores_fail(entries: Seq<(String, Json)>, i: int)
    requires
        0 <= i < entries.len(),
        !(entries[i].1 is Str),
    ensures
        spec_decode_scores(entries) is None,
    decreases entries.len(),
{
    if i < entries.len() - 1 {
        lemma_decode_scores_fail(entries.drop_last(), i);
    }
}

/// The optional `categoryScores` field.
pub open spec fn spec_opt_scores(entries: Seq<(String, Json)>, key: Seq<char>) -> Option<
    Option<Seq<(Seq<char>, Seq<char>)>>,
> {
    match spec_lookup(entries, key) {
        None => Some(None),
        Some(Json::Null) => Some(None),
        Some(Json::Obj(e)) => match spec_decode_scores(e@) {
            Some(m) => Some(Some(m)),
            None => None,
        },
        Some(_) => None,
    }
}

/// The optional `issues` field.
pub open spec fn spec_opt_issues(entries: Seq<(String, Json)>, key: Seq<char>) -> Option<
    Option<Seq<ModerationIssueV>>,
> {
    match spec_lookup(entries, key) {
        None => Some(None),
        Some(Json::Null) => Some(None),
        Some(Json::Arr(v)) => match spec_decode_issues(v@) {
            Some(list) => Some(Some(list)),
            None => None,
        },
        Some(_) => None,
    }
}

/// The optional `addons` field: when present it must carry both flags.
pub open spec fn spec_opt_addons(entries: Seq<(String, Json)>, key: Seq<char>) -> Option<
    Option<AddonUsage>,
> {
    match spec_lookup(entries, key) {
        None => Some(None),
        Some(Json::Null) => Some(None),
        Some(Json::Obj(e)) => match (
            spec_req_bool(e@, "replacedUnsafe"@),
            spec_req_bool(e@, "replacedPii"@),
        ) {
            (Some(u), Some(p)) => Some(Some(AddonUsage { replaced_unsafe: u, replaced_pii: p })),
            _ => None,
        },
        Some(_) => None,
    }
}

/// What a moderation response body decodes to, if it matches the schema.
pub open spec fn spec_decode_moderation(j: Json) -> Option<ModerationResponseV> {
    match j {
        Json::Obj(e) => {
            let ic = spec_req_bool(e@, "isClean"@);
            let sev = spec_opt_str(e@, "severity"@);
            let cs = spec_opt_scores(e@, "categoryScores"@);
            let iss = spec_opt_issues(e@, "issues"@);
            let re = spec_opt_str(e@, "reason"@);
            let bp = spec_req_bool(e@, "isBypassAttempt"@);
            let sc = spec_opt_str(e@, "safeContent"@);
            let ad = spec_opt_addons(e@, "addons"@);
            if ic is Some && sev is Some && cs is Some && iss is Some && re is Some && bp is Some
                && sc is Some && ad is Some {
                Some(
                    ModerationResponseV {
                        is_clean: ic->0,
                        severity: sev->0,
                        category_scores: cs->0,
                        issues: iss->0,
                        reason: re->0,
                        is_bypass_attempt: bp->0,
                        safe_content: sc->0,
                        addons: ad->0,
                    },
                )
            } else {
                None
            }
        },
        _ => None,
    }
}

/// What a usage response body decodes to, if it matches the schema.
pub open spec fn spec_decode_usage(j: Json) -> Option<UsageResponseV> {
    match j {
        Json::Obj(e) => {
            let tier = spec_req_str(e@, "tier"@);
            let rl = spec_req_i32(e@, "rateLimit"@);
            let tl = spec_opt_i32(e@, "tokenLimit"@);
            let tu = spec_req_i32(e@, "tokensUsed"@);
            let rt = spec_req_i32(e@, "remainingTokens"@);
            if tier is Some && rl is Some && tl is Some && tu is Some && rt is Some {
                Some(
                    UsageResponseV {
                        tier: tier->0,
                        rate_limit: rl->0,
                        token_limit: tl->0,
                        tokens_used: tu->0,
                        remaining_tokens: rt->0,
                    },
                )
            } else {
                None
            }
        },
        _ => None,
    }
}

/// What an error body decodes to: any object, with `detail` and `title`
/// read when they are strings. A body that is not an object does not
/// parse as problem details.
pub open spec fn spec_decode_problem(j: Json) -> Option<ProblemDetailsV> {
    match j {
        Json::Obj(e) => match (spec_opt_str(e@, "detail"@), spec_opt_str(e@, "title"@)) {
            (Some(d), Some(t)) => Some(ProblemDetailsV { detail: d, title: t }),
            _ => None,
        },
        _ => None,
    }
}

/// The entries of a JSON object, empty for any other value.
pub open spec fn spec_obj_entries(j: Json) -> Seq<(String, Json)>
    recommends
        j is Obj,
{
    match j {
        Json::Obj(e) => e@,
        _ => Seq::empty(),
    }
}

/// A tree that decodes as a moderation response is an object, and every
/// field of the decoded value equals what stands under the matching key
/// of that object.
pub proof fn lemma_moderation_fields_verbatim(j: Json)
    requires
        spec_decode_moderation(j) is Some,
    ensures
        j is Obj,
        Some(spec_decode_moderation(j)->0.is_clean) == spec_req_bool(
            spec_obj_entries(j),
            "isClean"@,
        ),
        Some(spec_decode_moderation(j)->0.severity) == spec_opt_str(
            spec_obj_entries(j),
            "severity"@,
        ),
        Some(spec_decode_moderation(j)->0.category_scores) == spec_opt_scores(
            spec_obj_entries(j),
            "categoryScores"@,
        ),
        Some(spec_decode_moderation(j)->0.issues) == spec_opt_issues(
            spec_obj_entries(j),
            "issues"@,
        ),
        Some(spec_decode_moderation(j)->0.reason) == spec_opt_str(spec_obj_entries(j), "reason"@),
        Some(spec_decode_moderation(j)->0.is_bypass_attempt) == spec_req_bool(
            spec_obj_entries(j),
            "isBypassAttempt"@,
        ),
        Some(spec_decode_moderation(j)->0.safe_content) == spec_opt_str(
            spec_obj_entries(j),
            "safeContent"@,
        ),
        Some(spec_decode_moderation(j)->0.addons) == spec_opt_addons(spec_obj_entries(j), "addons"@),
{
}

/// A tree that decodes as a usage report is an object, and every field
/// of the decoded value equals what stands under the matching key of
/// that object; in particular an absent `tokenLimit` decodes to an unset
/// field, not to a default.
pub proof fn lemma_usage_fields_verbatim(j: Json)
    requires
        spec_decode_usage(j) is Some,
    ensures
        j is Obj,
        Some(spec_decode_usage(j)->0.tier) == spec_req_str(spec_obj_entries(j), "tier"@),
        Some(spec_decode_usage(j)->0.rate_limit) == spec_req_i32(spec_obj_entries(j), "rateLimit"@),
        Some(spec_decode_usage(j)->0.token_limit) == spec_opt_i32(
            spec_obj_entries(j),
            "tokenLimit"@,
        ),
        spec_lookup(spec_obj_entries(j), "tokenLimit"@) is None ==> spec_decode_usage(
            j,
        )->0.token_limit is None,
        Some(spec_decode_usage(j)->0.tokens_used) == spec_req_i32(
            spec_obj_entries(j),
            "tokensUsed"@,
        ),
        Some(spec_decode_usage(j)->0.remaining_tokens) == spec_req_i32(
            spec_obj_entries(j),
            "remainingTokens"@,
        ),
{
}

fn decode_issue(j: &Json) -> (r: Option<ModerationIssue>)
    ensures
        match r {
            Some(v) => spec_decode_issue(*j) == Some(v@),
            None => spec_decode_issue(*j) is None,
        },
{
    let entries = match j {
        Json::Obj(e) => e,
        _ => {
            return None;
        },
    };
    let term = match get_opt_str(entries, "term") {
        Some(v) => v,
        None => {
            return None;
        },
    };
    let context = match get_opt_str(entries, "context") {
        Some(v) => v,
        None => {
            return None;
        },
    };
    Some(ModerationIssue { term, context })
}

fn decode_issue_list(items: &Vec<Json>) -> (r: Option<Vec<ModerationIssue>>)
    ensures
        match r {
            Some(v) => spec_decode_issues(items@) == Some(v@.map_values(|e: ModerationIssue| e@)),
            None => spec_decode_issues(items@) is None,
        },
{
    let n = items.len();
    let mut out: Vec<ModerationIssue> = Vec::new();
    let mut i: usize = 0;
    while i < n
        invariant
            n == items@.len(),
            i <= n,
            spec_decode_issues(items@.take(i as int)) == Some(
                out@.map_values(|e: ModerationIssue| e@),
            ),
        decreases n - i,
    {
        match decode_issue(&items[i]) {
            Some(v) => {
                out.push(v);
            },
            None => {
                proof {
                    lemma_decode_issues_fail(items@, i as int);
                }
                return None;
            },
        }
        proof {
            assert(items@.take(i as int + 1).drop_last() =~= items@.take(i as int));
            assert(items@.take(i as int + 1).last() == items@[i as int]);
            assert(out@.map_values(|e: ModerationIssue| e@) =~= out@.drop_last().map_values(
                |e: ModerationIssue| e@,
            ).push(out@.last()@));
        }
        i = i + 1;
    }
    proof {
        assert(items@.take(n as int) =~= items@);
    }
    Some(out)
}

fn decode_scores(entries: &Vec<(String, Json)>) -> (r: Option<Vec<(String, String)>>)
    ensures
        match r {
            Some(v) => spec_decode_scores(entries@) == Some(
                v@.map_values(|e: (String, String)| (e.0@, e.1@)),
            ),
            None => spec_decode_scores(entries@) is None,
        },
{
    let n = entries.len();
    let mut out: Vec<(String, String)> = Vec::new();
    let mut i: usize = 0;
    while i < n
        invariant
            n == entries@.len(),
            i <= n,
            spec_decode_scores(entries@.take(i as int)) == Some(
                out@.map_values(|e: (String, String)| (e.0@, e.1@)),
            ),
        decreases n - i,
    {
        let e = &entries[i];
        match &e.1 {
            Json::Str(s) => {
                out.push((e.0.clone(), s.clone()));
            },
            _ => {
                proof {
                    lemma_decode_scores_fail(entries@, i as int);
                }
                return None;
            },
        }
        proof {
            assert(entries@.take(i as int + 1).drop_last() =~= entries@.take(i as int));
            assert(entries@.take(i as int + 1).last() == entries@[i as int]);
            assert(out@.map_values(|e: (String, String)| (e.0@, e.1@))
                =~= out@.drop_last().map_values(|e: (String, String)| (e.0@, e.1@)).push(
                (out@.last().0@, out@.last().1@),
            ));
        }
        i = i + 1;
    }
    proof {
        assert(entries@.take(n as int) =~= entries@);
    }
    Some(out)
}

/// Decodes a moderation response from its JSON tree. Succeeds exactly
/// when the tree matches the response schema, and then every field of
/// the result equals the corresponding field of the tree.
pub fn decode_moderation_response(j: &Json) -> (r: Option<ModerationResponse>)
    ensures
        match r {
            Some(m) => spec_decode_moderation(*j) == Some(m@),
            None => spec_decode_moderation(*j) is None,
        },
{
    let entries = match j {
        Json::Obj(e) => e,
        _ => {
            return None;
        },
    };
    let is_clean = match get_req_bool(entries, "isClean") {
        Some(b) => b,
        None => {
            return None;
        },
    };
    let severity = match get_opt_str(entries, "severity") {
        Some(v) => v,
        None => {
            return None;
        },
    };
    let category_scores = match lookup(entries, "categoryScores") {
        None => None,
        Some(Json::Null) => None,
        Some(Json::Obj(e)) => match decode_scores(e) {
            Some(m) => Some(m),
            None => {
                return None;
            },
        },
        Some(_) => {
            return None;
        },
    };
    let issues = match lookup(entries, "issues") {
        None => None,
        Some(Json::Null) => None,
        Some(Json::Arr(v)) => match decode_issue_list(v) {
            Some(list) => Some(list),
            None => {
                return None;
            },
        },
        Some(_) => {
            return None;
        },
    };
    let reason = match get_opt_str(entries, "reason") {
        Some(v) => v,
        None => {
            return None;
        },
    };
    let is_bypass_attempt = match get_req_bool(entries, "isBypassAttempt") {
        Some(b) => b,
        None => {
            return None;
        },
    };
    let safe_content = match get_opt_str(entries, "safeContent") {
        Some(v) => v,
        None => {
            return None;
        },
    };
    let addons = match lookup(entries, "addons") {
        None => None,
        Some(Json::Null) => None,
        Some(Json::Obj(e)) => {
            let u = match get_req_bool(e, "replacedUnsafe") {
                Some(b) => b,
                None => {
                    return None;
                },
            };
            let p = match get_req_bool(e, "replacedPii") {
                Some(b) => b,
                None => {
                    return None;
                },
            };
            Some(AddonUsage { replaced_unsafe: u, replaced_pii: p })
        },
        Some(_) => {
            return None;
        },
    };
    Some(
        ModerationResponse {
            is_clean,
            severity,
            category_scores,
            issues,
            reason,
            is_bypass_attempt,
            safe_content,
            addons,
        },
    )
}

/// Decodes a usage report from its JSON tree. Succeeds exactly when the
/// tree matches the usage schema, and then every field of the result
/// equals the corresponding field of the tree.
pub fn decode_usage_response(j: &Json) -> (r: Option<UsageResponse>)
    ensures
        match r {
            Some(u) => spec_decode_usage(*j) == Some(u@),
            None => spec_decode_usage(*j) is None,
        },
{
    let entries = match j {
        Json::Obj(e) => e,
        _ => {
            return None;
        },
    };
    let tier = match get_req_str(entries, "tier") {
        Some(s) => s,
        None => {
            return None;
        },
    };
    let rate_limit = match get_req_i32(entries, "rateLimit") {
        Some(n) => n,
        None => {
            return None;
        },
    };
    let token_limit = match get_opt_i32(entries, "tokenLimit") {
        Some(v) => v,
        None => {
            return None;
        },
    };
    let tokens_used = match get_req_i32(entries, "tokensUsed") {
        Some(n) => n,
        None => {
            return None;
        },
    };
    let remaining_tokens = match get_req_i32(entries, "remainingTokens") {
        Some(n) => n,
        None => {
            return None;
        },
    };
    Some(UsageResponse { tier, rate_limit, token_limit, tokens_used, remaining_tokens })
}

/// Decodes an error body as problem details, if it is an object whose
/// `detail` and `title` fields, where present, are strings or null.
pub fn decode_problem_details(j: &Json) -> (r: Option<ProblemDetails>)
    ensures
        match r {
            Some(p) => spec_decode_problem(*j) == Some(p@),
            None => spec_decode_problem(*j) is None,
        },
{
    let entries = match j {
        Json::Obj(e) => e,
        _ => {
            return None;
        },
    };
    let detail = match get_opt_str(entries, "detail") {
        Some(v) => v,
        None => {
            return None;
        },
    };
    let title = match get_opt_str(entries, "title") {
        Some(v) => v,
        None => {
            return None;
        },
    };
    Some(ProblemDetails { detail, title })
}

} // verus!
