//! The calculator tool's decision logic: parameter screening and the rate
//! gate. The arithmetic evaluation itself works on floating point and is
//! performed by the surrounding process once a request passes this gate.

use vstd::prelude::*;
use vstd::string::*;
use vstd::utf8::encode_utf8;
use crate::jsonval;
use crate::security::SecurityPolicy;
use crate::security::count_in_window;
use crate::security::record_step;
use crate::text::trim_of;
use crate::text::trim_str;

verus! {

/// Ceiling on the byte length of an expression the tool will evaluate.
pub const MAX_EXPRESSION_LEN: usize = 200;

/// Largest accepted decimal precision for formatted output.
pub const MAX_PRECISION: u64 = 12;

/// Precision used when the request names none.
pub const DEFAULT_PRECISION: u64 = 6;

/// Deterministic in-process math evaluation, gated by the shared security
/// policy.
pub struct CalculatorTool {
    /// The shared security gate consulted before every evaluation.
    pub security: SecurityPolicy,
}

/// What the tool decided about one request, in the order the gates run.
pub enum CalcGate {
    /// The `expression` parameter is absent or blank.
    MissingExpression,
    /// The trimmed expression exceeds [`MAX_EXPRESSION_LEN`] bytes.
    TooLong,
    /// The action budget refused the reservation.
    RateLimited,
    /// The requested precision exceeds [`MAX_PRECISION`].
    PrecisionTooLarge,
    /// Evaluate the trimmed expression at the resolved precision.
    Evaluate { expression: String, precision: u64 },
}

/// The expression after trimming, empty when the parameter is absent.
pub open spec fn trimmed_expression(expression: Option<String>) -> Seq<char> {
    match expression {
        Some(e) => trim_of(e@),
        None => Seq::empty(),
    }
}

/// Whether the request carries no usable expression.
pub open spec fn expression_missing(expression: Option<String>) -> bool {
    trimmed_expression(expression).len() == 0
}

/// Whether the trimmed expression exceeds the byte-length ceiling.
pub open spec fn expression_too_long(expression: Option<String>) -> bool {
    encode_utf8(trimmed_expression(expression)).len() > MAX_EXPRESSION_LEN
}

/// The precision a request asks for, defaulting to [`DEFAULT_PRECISION`].
pub open spec fn precision_of(precision: Option<u64>) -> u64 {
    match precision {
        Some(p) => p,
        None => DEFAULT_PRECISION,
    }
}

/// Bounds the requested precision: at most [`MAX_PRECISION`], defaulting
/// to [`DEFAULT_PRECISION`] when absent.
pub fn normalize_precision(precision: Option<u64>) -> (r: Option<u64>)
    ensures
        r == (if precision_of(precision) <= MAX_PRECISION {
            Some(precision_of(precision))
        } else {
            None::<u64>
        }),
{
    let p = match precision {
        Some(p) => p,
        None => DEFAULT_PRECISION,
    };
    if p <= MAX_PRECISION {
        Some(p)
    } else {
        None
    }
}

impl CalculatorTool {
    pub fn new(security: SecurityPolicy) -> (t: Self)
        ensures
            t.security == security,
    {
        CalculatorTool { security }
    }

    /// The tool's stable name.
    pub fn name(&self) -> (r: &'static str)
        ensures
            r@ == "calculator"@,
    {
        "calculator"
    }

    pub fn description(&self) -> (r: &'static str)
        ensures
            r@.len() > 0,
    {
        proof {
            reveal_strlit(
                "Evaluate a math expression safely inside ZeroClaw (supports +, -, *, /, ^, parentheses, constants pi/e).",
            );
        }
        "Evaluate a math expression safely inside ZeroClaw (supports +, -, *, /, ^, parentheses, constants pi/e)."
    }

    /// The JSON schema of the tool's parameters, as text.
    pub fn parameters_schema_json(&self) -> (r: &'static str)
        ensures
            r@.len() > 0,
    {
        proof {
            reveal_strlit(
                "{\"type\":\"object\",\"properties\":{\"expression\":{\"type\":\"string\",\"description\":\"Math expression to evaluate, e.g. (3+5)*2^3, sqrt(81), pow(2,10)\"},\"precision\":{\"type\":\"integer\",\"description\":\"Optional decimal precision for formatted output (0-12, default: 6)\"}},\"required\":[\"expression\"]}",
            );
        }
        "{\"type\":\"object\",\"properties\":{\"expression\":{\"type\":\"string\",\"description\":\"Math expression to evaluate, e.g. (3+5)*2^3, sqrt(81), pow(2,10)\"},\"precision\":{\"type\":\"integer\",\"description\":\"Optional decimal precision for formatted output (0-12, default: 6)\"}},\"required\":[\"expression\"]}"
    }

    /// The JSON schema of the tool's parameters.
    pub fn parameters_schema(&self) -> serde_json::Value {
        jsonval::parse_json_text(self.parameters_schema_json())
    }

    /// Screens one request given its plain parameter values and the wall
    /// clock second `now`: the gates run in order — blank expression,
    /// length ceiling, the budget reservation, the precision bound — and
    /// the budget is charged exactly when the first two pass.
    pub fn check_request(&mut self, expression: Option<String>, precision: Option<u64>, now: u64)
        -> (g: CalcGate)
        ensures
            g is MissingExpression <==> expression_missing(expression),
            g is TooLong <==> !expression_missing(expression) && expression_too_long(expression),
            g is RateLimited <==> !expression_missing(expression) && !expression_too_long(
                expression,
            ) && count_in_window(old(self).security.actions@, now)
                >= old(self).security.max_actions_per_hour,
            g is PrecisionTooLarge ==> precision_of(precision) > MAX_PRECISION,
            g matches CalcGate::Evaluate { expression: e, precision: p } ==> e@
                == trimmed_expression(expression) && p == precision_of(precision) && p
                <= MAX_PRECISION,
            expression_missing(expression) || expression_too_long(expression) ==> *final(self)
                == *old(self),
            !expression_missing(expression) && !expression_too_long(expression)
                ==> final(self).security.actions@ == record_step(
                old(self).security.actions@,
                old(self).security.max_actions_per_hour,
                now,
            ).0,
            final(self).security.autonomy == old(self).security.autonomy,
            final(self).security.max_actions_per_hour == old(self).security.max_actions_per_hour,
            final(self).security.workspace_dir == old(self).security.workspace_dir,
    {
        let trimmed = match &expression {
            Some(e) => trim_str(e.as_str()),
            None => String::new(),
        };
        if trimmed.as_str().unicode_len() == 0 {
            return CalcGate::MissingExpression;
        }
        if trimmed.as_str().as_bytes().len() > MAX_EXPRESSION_LEN {
            return CalcGate::TooLong;
        }
        if !self.security.record_action_at(now) {
            return CalcGate::RateLimited;
        }
        match normalize_precision(precision) {
            Some(p) => CalcGate::Evaluate { expression: trimmed, precision: p },
            None => CalcGate::PrecisionTooLarge,
        }
    }

    /// Screens one request as it arrives from the wire: copies the
    /// `expression` and `precision` parameters out of the JSON arguments
    /// and judges them with [`Self::check_request`]. Whatever the payload
    /// held, an accepted request carries a non-blank expression within the
    /// length ceiling and a precision within bounds, and the budget moves
    /// by at most one reservation.
    pub fn check_request_json(&mut self, args: &serde_json::Value, now: u64) -> (g: CalcGate)
        ensures
            g matches CalcGate::Evaluate { expression: e, precision: p } ==> e@.len() > 0
                && encode_utf8(e@).len() <= MAX_EXPRESSION_LEN && p <= MAX_PRECISION,
            final(self).security.autonomy == old(self).security.autonomy,
            final(self).security.max_actions_per_hour == old(self).security.max_actions_per_hour,
            final(self).security.workspace_dir == old(self).security.workspace_dir,
            final(self).security.actions@ == old(self).security.actions@
                || final(self).security.actions@ == old(self).security.actions@.push(now),
    {
        let expression = jsonval::json_get_str(args, "expression");
        let precision = jsonval::json_get_u64(args, "precision");
        self.check_request(expression, precision, now)
    }
}

} // verus!
