//! Top-level shape probe for transcript lines.
//!
//! A line is expected to carry a top-level `type` field; a line whose `type`
//! is `user` or `assistant` is expected to carry an object `message`. Unknown
//! types and extra fields are forward-compatible, not drift.
use vstd::prelude::*;

use crate::source::{ProbeOutcome, ProbeView};

verus! {

/// What the probe reads of one JSON transcript line.
#[derive(Debug, Clone, PartialEq, Eq)]
pub struct LineShape {
    /// Whether the line has a top-level `type` field.
    pub has_type: bool,
    /// The `type` field's text, when it is a JSON string.
    pub type_text: Option<String>,
    /// Whether the line has a top-level `message` field holding an object.
    pub message_is_object: bool,
}

/// The shape of the JSON line `line`, or `None` when `line` is not one JSON
/// value, as `serde_json` reads it.
pub uninterp spec fn json_line_shape(line: Seq<u8>) -> Option<LineShape>;

/// `serde_json::from_slice::<serde_json::Value>` on one line, then
/// `Value::get` of the `type` and `message` fields, `Value::as_str` of the
/// `type` field and `Value::is_object` of the `message` field. Parsing
/// depends on the bytes alone; the shape it yields is left to the named
/// function.
#[verifier::external_body]
pub(crate) fn parse_line_shape(line: &[u8]) -> (r: Option<LineShape>)
    ensures
        r == json_line_shape(line@),
{
    let v: serde_json::Value = serde_json::from_slice(line).ok()?;
    Some(LineShape {
        has_type: v.get("type").is_some(),
        type_text: v.get("type").and_then(|t| t.as_str()).map(|s| s.to_owned()),
        message_is_object: v.get("message").is_some_and(|m| m.is_object()),
    })
}

/// Reason reported for a line without a `type` field.
pub open spec fn reason_no_type() -> Seq<char> {
    "missing top-level `type` field"@
}

/// Reason reported for a role-bearing line whose `message` is not an object.
pub open spec fn reason_message_not_object() -> Seq<char> {
    "`message` field is not an object"@
}

/// Whether a `type` text names one of the role-bearing line types.
pub open spec fn is_role_type(t: Seq<char>) -> bool {
    t == "user"@ || t == "assistant"@
}

/// The probe's verdict on one line shape.
pub open spec fn probe_spec(line: LineShape) -> ProbeView {
    if !line.has_type {
        ProbeView::Drift(reason_no_type())
    } else if (line.type_text matches Some(t) && is_role_type(t@)) && !line.message_is_object {
        ProbeView::Drift(reason_message_not_object())
    } else {
        ProbeView::Matched
    }
}

/// Probe law: a line drifts exactly when it has no `type` field, or when its
/// `type` is the text `user` or `assistant` and its `message` is not an
/// object. Any other type, known or not, matches whatever its `message`.
pub proof fn lemma_probe_drifts_only_on_shape(line: LineShape)
    ensures
        (probe_spec(line) is Drift) <==> (!line.has_type || (line.type_text matches Some(t) && (
        t@ == "user"@ || t@ == "assistant"@) && !line.message_is_object)),
        !line.has_type ==> probe_spec(line) == ProbeView::Drift(
            "missing top-level `type` field"@,
        ),
        line.has_type && !(line.type_text matches Some(t) && (t@ == "user"@ || t@
            == "assistant"@)) ==> probe_spec(line) == ProbeView::Matched,
        line.has_type && line.message_is_object ==> probe_spec(line) == ProbeView::Matched,
        line.has_type && (line.type_text matches Some(t) && (t@ == "user"@ || t@ == "assistant"@))
            && !line.message_is_object ==> probe_spec(line) == ProbeView::Drift(
            "`message` field is not an object"@,
        ),
{
}

/// Probe one line for the expected top-level shape: drift when it has no
/// `type` field, or when its `type` is `user`/`assistant` and its `message`
/// is missing or not an object; otherwise a match.
pub fn probe_line(line: &LineShape) -> (r: ProbeOutcome)
    ensures
        r@ == probe_spec(*line),
{
    if !line.has_type {
        let detail = "missing top-level `type` field".to_owned();
        proof {
            reveal_strlit("missing top-level `type` field");
        }
        return ProbeOutcome::Drift { detail };
    }
    let role_bearing = match &line.type_text {
        Some(t) => {
            let user = "user".to_owned();
            let assistant = "assistant".to_owned();
            *t == user || *t == assistant
        },
        None => false,
    };
    if role_bearing && !line.message_is_object {
        let detail = "`message` field is not an object".to_owned();
        proof {
            reveal_strlit("`message` field is not an object");
        }
        return ProbeOutcome::Drift { detail };
    }
    ProbeOutcome::Matched
}

/// The first drift in `s` from index `i` on, or a match when there is none.
pub open spec fn first_drift_from(s: Seq<ProbeView>, i: int) -> ProbeView
    decreases s.len() - i,
{
    if i < 0 || i >= s.len() {
        ProbeView::Matched
    } else if s[i] is Drift {
        s[i]
    } else {
        first_drift_from(s, i + 1)
    }
}

/// The first drift in `s`, or a match when there is none.
pub open spec fn first_drift(s: Seq<ProbeView>) -> ProbeView {
    first_drift_from(s, 0)
}

/// The values of a sequence of outcomes.
pub open spec fn outcome_views(s: Seq<ProbeOutcome>) -> Seq<ProbeView> {
    s.map_values(|o: ProbeOutcome| o@)
}

/// Fold per-line outcomes into one: the first drift wins; no drift (or no
/// line) is a match.
pub fn aggregate(outcomes: &[ProbeOutcome]) -> (r: ProbeOutcome)
    ensures
        r@ == first_drift(outcome_views(outcomes@)),
{
    let ghost s = outcome_views(outcomes@);
    let mut i: usize = 0;
    while i < outcomes.len()
        invariant
            i <= outcomes@.len(),
            s == outcome_views(outcomes@),
            first_drift(s) == first_drift_from(s, i as int),
        decreases outcomes@.len() - i,
    {
        match &outcomes[i] {
            ProbeOutcome::Drift { .. } => {
                return outcomes[i].clone();
            },
            ProbeOutcome::Matched => {},
        }
        i = i + 1;
    }
    ProbeOutcome::Matched
}

/// Aggregation law: the aggregate is a match exactly when no outcome drifts,
/// and otherwise is one of the outcomes, every one before it a match.
pub proof fn lemma_first_drift_wins(s: Seq<ProbeView>)
    ensures
        (first_drift(s) is Matched) <==> (forall|i: int| 0 <= i < s.len() ==> #[trigger] s[i] is Matched),
        first_drift(s) is Drift ==> exists|i: int|
            0 <= i < s.len() && s[i] == first_drift(s) && forall|j: int|
                0 <= j < i ==> #[trigger] s[j] is Matched,
{
    lemma_first_drift_from(s, 0);
}

proof fn lemma_first_drift_from(s: Seq<ProbeView>, k: int)
    requires
        0 <= k <= s.len(),
    ensures
        (first_drift_from(s, k) is Matched) <==> (forall|i: int|
            k <= i < s.len() ==> #[trigger] s[i] is Matched),
        first_drift_from(s, k) is Drift ==> exists|i: int|
            k <= i < s.len() && s[i] == first_drift_from(s, k) && forall|j: int|
                k <= j < i ==> #[trigger] s[j] is Matched,
    decreases s.len() - k,
{
    if k < s.len() {
        lemma_first_drift_from(s, k + 1);
        if !(s[k] is Drift) {
            if first_drift_from(s, k) is Drift {
                let i = choose|i: int|
                    k + 1 <= i < s.len() && s[i] == first_drift_from(s, k + 1) && forall|j: int|
                        k + 1 <= j < i ==> #[trigger] s[j] is Matched;
                assert(forall|j: int| k <= j < i ==> #[trigger] s[j] is Matched);
            }
        }
    }
}

} // verus!
