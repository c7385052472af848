//! Row values and the value-level side of coercion: what a cache-backed
//! scan yields under the coerced schema, and how the output adapter turns
//! it back into values under the original schema, exactly.

use vstd::prelude::*;
use crate::CacheMode;
use crate::schema::{LogicalType, coerce_type_spec};

verus! {

/// A single column value of a row.
#[derive(Debug, PartialEq, Eq)]
pub enum ScalarValue {
    Bool { v: bool },
    Int { v: i64 },
    Date { days: i32 },
    Text { s: String },
    Bytes { b: Vec<u8> },
    /// Unscaled fixed-point value of a decimal column.
    Decimal { unscaled: i128 },
    /// Ticks of the column type's time unit.
    Timestamp { ticks: i64 },
    /// Cache-internal: dictionary-encoded string.
    DictText { s: String },
    /// Cache-internal: dictionary-encoded binary.
    DictBytes { b: Vec<u8> },
    /// Cache-internal: sixteen-byte fixed-width value.
    Fixed16 { unscaled: i128 },
}

/// Whether a value inhabits a logical type.
pub open spec fn well_typed(v: ScalarValue, t: LogicalType) -> bool {
    match t {
        LogicalType::Boolean => v is Bool,
        LogicalType::Int8 => v is Int,
        LogicalType::Int16 => v is Int,
        LogicalType::Int32 => v is Int,
        LogicalType::Int64 => v is Int,
        LogicalType::Date32 => v is Date,
        LogicalType::Utf8 => v is Text,
        LogicalType::LargeUtf8 => v is Text,
        LogicalType::Binary => v is Bytes,
        LogicalType::Decimal { precision, scale } => v is Decimal,
        LogicalType::Timestamp { unit } => v is Timestamp,
        LogicalType::DictUtf8 => v is DictText,
        LogicalType::DictBinary => v is DictBytes,
        LogicalType::FixedBinary16 => v is Fixed16,
        LogicalType::Other { code } => true,
    }
}

/// Truncating signed division by a positive divisor, as the adapter's cast
/// performs it.
pub open spec fn trunc_div(a: int, f: int) -> int {
    if a >= 0 {
        a / f
    } else {
        -((-a) / f)
    }
}

/// The cache-internal image of a value of type `t` under `mode`: exactly
/// what the mapper's type table does, lifted to values. `None` where the
/// image would not be representable (a timestamp whose canonical-unit tick
/// count leaves the sixty-four-bit range).
pub open spec fn encode_value_spec(v: ScalarValue, t: LogicalType, mode: CacheMode) -> Option<
    ScalarValue,
> {
    if !mode.is_engaged() {
        Some(v)
    } else {
        match t {
            LogicalType::Utf8 => Some(
                ScalarValue::DictText { s: v->Text_s },
            ),
            LogicalType::LargeUtf8 => Some(ScalarValue::DictText { s: v->Text_s }),
            LogicalType::Binary => Some(ScalarValue::DictBytes { b: v->Bytes_b }),
            LogicalType::Decimal { precision, scale } => Some(
                ScalarValue::Fixed16 { unscaled: v->Decimal_unscaled },
            ),
            LogicalType::Timestamp { unit } => {
                let p = v->Timestamp_ticks * unit.ns_factor_spec();
                if i64::MIN <= p <= i64::MAX {
                    Some(ScalarValue::Timestamp { ticks: p as i64 })
                } else {
                    None
                }
            },
            _ => Some(v),
        }
    }
}

/// The adapter's inverse: the value under the original type `t` that a
/// cache-internal value stands for.
pub open spec fn decode_value_spec(cv: ScalarValue, t: LogicalType, mode: CacheMode) -> ScalarValue {
    if !mode.is_engaged() {
        cv
    } else {
        match t {
            LogicalType::Utf8 => ScalarValue::Text { s: cv->DictText_s },
            LogicalType::LargeUtf8 => ScalarValue::Text { s: cv->DictText_s },
            LogicalType::Binary => ScalarValue::Bytes { b: cv->DictBytes_b },
            LogicalType::Decimal { precision, scale } => ScalarValue::Decimal {
                unscaled: cv->Fixed16_unscaled,
            },
            LogicalType::Timestamp { unit } => ScalarValue::Timestamp {
                ticks: trunc_div(cv->Timestamp_ticks as int, unit.ns_factor_spec()) as i64,
            },
            _ => cv,
        }
    }
}

/// Value preservation: every value representable in the original type
/// round-trips exactly through the cache's representation and back.
pub proof fn lemma_value_round_trip(v: ScalarValue, t: LogicalType, mode: CacheMode)
    requires
        well_typed(v, t),
        (encode_value_spec(v, t, mode) is Some),
    ensures
        decode_value_spec(encode_value_spec(v, t, mode)->Some_0, t, mode) == v,
{
    if mode.is_engaged() {
        match t {
            LogicalType::Timestamp { unit } => {
                let ticks = v->Timestamp_ticks as int;
                let f = unit.ns_factor_spec();
                let p = ticks * f;
                assert(f >= 1);
                if ticks >= 0 {
                    assert(p >= 0 && p / f == ticks) by (nonlinear_arith)
                        requires
                            f >= 1,
                            ticks >= 0,
                            p == ticks * f,
                    ;
                } else {
                    assert(p < 0 && (-p) / f == -ticks) by (nonlinear_arith)
                        requires
                            f >= 1,
                            ticks < 0,
                            p == ticks * f,
                    ;
                }
                assert(trunc_div(p, f) == ticks);
            },
            _ => {},
        }
    }
}

/// An encoded value inhabits the coerced type.
pub proof fn lemma_encode_well_typed(v: ScalarValue, t: LogicalType, mode: CacheMode)
    requires
        well_typed(v, t),
        (coerce_type_spec(t, mode) is Some),
        (encode_value_spec(v, t, mode) is Some),
    ensures
        well_typed(encode_value_spec(v, t, mode)->Some_0, coerce_type_spec(t, mode)->Some_0),
{
}

/// Why a value could not be routed through the cache's representation.
#[derive(Clone, Copy, Debug, PartialEq, Eq, Structural)]
pub enum AdaptError {
    /// The value's canonical-unit image leaves the representable range.
    OutOfRange,
}

/// What the cache-backed scan yields for one value: the executable image of
/// [`encode_value_spec`].
pub fn encode_value(v: ScalarValue, t: LogicalType, mode: CacheMode) -> (r: Result<
    ScalarValue,
    AdaptError,
>)
    requires
        well_typed(v, t),
    ensures
        r is Ok <==> (encode_value_spec(v, t, mode) is Some),
        r matches Ok(cv) ==> encode_value_spec(v, t, mode) == Some(cv),
{
    if matches!(mode, CacheMode::Disabled) {
        return Ok(v);
    }
    match t {
        LogicalType::Utf8 | LogicalType::LargeUtf8 => {
            match v {
                ScalarValue::Text { s } => Ok(ScalarValue::DictText { s }),
                _ => {
                    proof {
                        assert(false);
                    }
                    Err(AdaptError::OutOfRange)
                },
            }
        },
        LogicalType::Binary => {
            match v {
                ScalarValue::Bytes { b } => Ok(ScalarValue::DictBytes { b }),
                _ => {
                    proof {
                        assert(false);
                    }
                    Err(AdaptError::OutOfRange)
                },
            }
        },
        LogicalType::Decimal { precision: _, scale: _ } => {
            match v {
                ScalarValue::Decimal { unscaled } => Ok(ScalarValue::Fixed16 { unscaled }),
                _ => {
                    proof {
                        assert(false);
                    }
                    Err(AdaptError::OutOfRange)
                },
            }
        },
        LogicalType::Timestamp { unit } => {
            match v {
                ScalarValue::Timestamp { ticks } => {
                    let f = unit.ns_factor();
                    let p: i128 = (ticks as i128) * (f as i128);
                    if p > (i64::MAX as i128) || p < (i64::MIN as i128) {
                        Err(AdaptError::OutOfRange)
                    } else {
                        Ok(ScalarValue::Timestamp { ticks: p as i64 })
                    }
                },
                _ => {
                    proof {
                        assert(false);
                    }
                    Err(AdaptError::OutOfRange)
                },
            }
        },
        _ => Ok(v),
    }
}

/// What the output adapter emits for one value: the executable image of
/// [`decode_value_spec`].
pub fn decode_value(cv: ScalarValue, t: LogicalType, mode: CacheMode) -> (r: ScalarValue)
    requires
        (coerce_type_spec(t, mode) is Some),
        well_typed(cv, coerce_type_spec(t, mode)->Some_0),
    ensures
        r == decode_value_spec(cv, t, mode),
{
    if matches!(mode, CacheMode::Disabled) {
        return cv;
    }
    match t {
        LogicalType::Utf8 | LogicalType::LargeUtf8 => {
            match cv {
                ScalarValue::DictText { s } => ScalarValue::Text { s },
                other => {
                    proof {
                        assert(false);
                    }
                    other
                },
            }
        },
        LogicalType::Binary => {
            match cv {
                ScalarValue::DictBytes { b } => ScalarValue::Bytes { b },
                other => {
                    proof {
                        assert(false);
                    }
                    other
                },
            }
        },
        LogicalType::Decimal { precision: _, scale: _ } => {
            match cv {
                ScalarValue::Fixed16 { unscaled } => ScalarValue::Decimal { unscaled },
                other => {
                    proof {
                        assert(false);
                    }
                    other
                },
            }
        },
        LogicalType::Timestamp { unit } => {
            match cv {
                ScalarValue::Timestamp { ticks } => {
                    let f = unit.ns_factor();
                    if ticks >= 0 {
                        let q: u64 = (ticks as u64) / (f as u64);
                        proof {
                            assert(q == trunc_div(ticks as int, f as int));
                        }
                        ScalarValue::Timestamp { ticks: q as i64 }
                    } else {
                        let m: u64 = (-(ticks as i128)) as u64;
                        let qm: u64 = m / (f as u64);
                        let q: i64 = (-(qm as i128)) as i64;
                        proof {
                            assert(m == -(ticks as int));
                            assert(qm == (-(ticks as int)) / (f as int));
                            assert(q == trunc_div(ticks as int, f as int));
                        }
                        ScalarValue::Timestamp { ticks: q }
                    }
                },
                other => {
                    proof {
                        assert(false);
                    }
                    other
                },
            }
        },
        _ => cv,
    }
}

} // verus!
