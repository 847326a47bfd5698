//! Rules of tool responses: which extra fields a response may carry, how
//! large it may be, and when its data is written to the cache.
use vstd::prelude::*;
use crate::input_validation::str_views;
use crate::text::{dec_nat, push_decimal_u64, push_str, str_eq};

verus! {

/// Responses larger than this many bytes are logged as large.
pub const RESPONSE_SIZE_WARN_THRESHOLD: usize = 1048576;

/// Responses larger than this many bytes are refused.
pub const RESPONSE_SIZE_MAX: usize = 10485760;

/// Whether a response's data is stored in the cache, and under which prefix.
#[derive(Debug, Clone, Copy, PartialEq, Eq)]
pub enum CachePolicy {
    Never,
    Store(&'static str),
}

/// Field names that every response sets itself.
pub const RESERVED_FIELDS: [&'static str; 4] = ["status", "summary", "filepath", "data"];

/// The first reserved field, in the order of `RESERVED_FIELDS`, that `keys`
/// holds.
pub open spec fn first_reserved(keys: Seq<Seq<char>>) -> Option<int> {
    if keys.contains(RESERVED_FIELDS@[0]@) {
        Some(0)
    } else if keys.contains(RESERVED_FIELDS@[1]@) {
        Some(1)
    } else if keys.contains(RESERVED_FIELDS@[2]@) {
        Some(2)
    } else if keys.contains(RESERVED_FIELDS@[3]@) {
        Some(3)
    } else {
        None
    }
}

/// Whether `keys` holds `name`.
fn has_key(keys: &Vec<String>, name: &str) -> (r: bool)
    ensures
        r == crate::sanitize::views(keys@).contains(name@),
{
    let ghost vs = crate::sanitize::views(keys@);
    let mut i: usize = 0;
    while i < keys.len()
        invariant
            i <= keys@.len(),
            vs == crate::sanitize::views(keys@),
            forall|j: int| 0 <= j < i ==> vs[j] != name@,
        decreases keys@.len() - i,
    {
        if str_eq(keys[i].as_str(), name) {
            assert(vs[i as int] == name@);
            return true;
        }
        i = i + 1;
    }
    assert(!vs.contains(name@)) by {
        if vs.contains(name@) {
            let j = choose|j: int| 0 <= j < vs.len() && vs[j] == name@;
            assert(vs[j] != name@);
        }
    }
    false
}

/// The first reserved field name that the given field names use, if any.
pub fn reserved_field_in(keys: &Vec<String>) -> (r: Option<&'static str>)
    ensures
        match first_reserved(crate::sanitize::views(keys@)) {
            Some(i) => r matches Some(f) && f@ == RESERVED_FIELDS@[i]@,
            None => r is None,
        },
{
    let mut i: usize = 0;
    while i < 4
        invariant
            i <= 4,
            forall|j: int|
                0 <= j < i ==> !crate::sanitize::views(keys@).contains(RESERVED_FIELDS@[j]@),
        decreases 4 - i,
    {
        if has_key(keys, RESERVED_FIELDS[i]) {
            return Some(RESERVED_FIELDS[i]);
        }
        i = i + 1;
    }
    None
}

/// The message for a response field name that is reserved.
pub open spec fn reserved_field_text(field: Seq<char>) -> Seq<char> {
    "tool response field '"@ + field + "' is reserved"@
}

/// Checks that the extra fields of a response use no reserved name.
pub fn validate_fields(keys: &Vec<String>) -> (r: Result<(), String>)
    ensures
        r is Ok <==> first_reserved(crate::sanitize::views(keys@)) is None,
        r matches Err(m) ==> m@ == reserved_field_text(
            RESERVED_FIELDS@[first_reserved(crate::sanitize::views(keys@))->0]@,
        ),
{
    match reserved_field_in(keys) {
        None => Ok(()),
        Some(f) => {
            let mut m = String::new();
            push_str(&mut m, "tool response field '");
            push_str(&mut m, f);
            push_str(&mut m, "' is reserved");
            assert(m@ =~= reserved_field_text(f@));
            Err(m)
        },
    }
}

/// How a response's serialized size is treated.
#[derive(Debug, Clone, Copy, PartialEq, Eq, Structural)]
pub enum ResponseSize {
    /// At most `RESPONSE_SIZE_WARN_THRESHOLD` bytes.
    Normal,
    /// Over the warning threshold, but within `RESPONSE_SIZE_MAX`.
    Large,
    /// Over `RESPONSE_SIZE_MAX`: refused.
    TooLarge,
}

/// Classifies a response of `size` bytes.
pub fn classify_response_size(size: usize) -> (r: ResponseSize)
    ensures
        size > RESPONSE_SIZE_MAX ==> r == ResponseSize::TooLarge,
        RESPONSE_SIZE_WARN_THRESHOLD < size <= RESPONSE_SIZE_MAX ==> r == ResponseSize::Large,
        size <= RESPONSE_SIZE_WARN_THRESHOLD ==> r == ResponseSize::Normal,
{
    if size > RESPONSE_SIZE_MAX {
        ResponseSize::TooLarge
    } else if size > RESPONSE_SIZE_WARN_THRESHOLD {
        ResponseSize::Large
    } else {
        ResponseSize::Normal
    }
}

/// The message for a response that is too large.
pub open spec fn too_large_text(size: nat) -> Seq<char> {
    "response is "@ + dec_nat(size) + " bytes, exceeding the "@ + dec_nat(
        RESPONSE_SIZE_MAX as nat,
    ) + "-byte limit; use pagination or a narrower query"@
}

/// Builds the message for a response that is too large.
pub fn too_large_message(size: usize) -> (r: String)
    ensures
        r@ == too_large_text(size as nat),
{
    let mut m = String::new();
    push_str(&mut m, "response is ");
    push_decimal_u64(&mut m, size as u64);
    push_str(&mut m, " bytes, exceeding the ");
    push_decimal_u64(&mut m, RESPONSE_SIZE_MAX as u64);
    push_str(&mut m, "-byte limit; use pagination or a narrower query");
    assert(m@ =~= too_large_text(size as nat));
    m
}

/// The prefix under which a response's data is stored: only when its policy
/// says so, it carries data, and the cache accepts writes.
pub open spec fn stored_under(policy: CachePolicy, has_data: bool, writes_enabled: bool) -> Option<
    &'static str,
> {
    match policy {
        CachePolicy::Store(p) => if has_data && writes_enabled {
            Some(p)
        } else {
            None
        },
        CachePolicy::Never => None,
    }
}

/// The cache prefix under which a response is stored: only when its policy
/// says so, it carries data, and the cache accepts writes.
pub fn cache_prefix_for(policy: CachePolicy, has_data: bool, writes_enabled: bool) -> (r: Option<
    &'static str,
>)
    ensures
        r == stored_under(policy, has_data, writes_enabled),
{
    match policy {
        CachePolicy::Store(p) => if has_data && writes_enabled {
            Some(p)
        } else {
            None
        },
        CachePolicy::Never => None,
    }
}

/// The number of bytes of the compact JSON text of a value, as
/// `serde_json::to_vec` writes it: a function of the value alone.
pub uninterp spec fn json_size(v: serde_json::Value) -> usize;

/// The length of `serde_json::to_vec` of a value, which cannot fail for a
/// `Value` written to memory; it is `json_size` of the value.
#[verifier::external_body]
fn compact_json_len(value: &serde_json::Value) -> (r: usize)
    ensures
        r == json_size(*value),
{
    match serde_json::to_vec(value) {
        Ok(bytes) => bytes.len(),
        Err(_) => 0,
    }
}

/// The serialized size of a response's data, when it carries any.
pub fn response_data_size(data: Option<&serde_json::Value>) -> (r: Option<usize>)
    ensures
        match data {
            Some(v) => r == Some(json_size(*v)),
            None => r is None,
        },
{
    match data {
        Some(v) => Some(compact_json_len(v)),
        None => None,
    }
}

/// How a successful tool response is rendered.
#[derive(Debug, Clone, Copy, PartialEq, Eq)]
pub struct ResponsePlan {
    /// The response is large enough to be logged as such.
    pub warn_large: bool,
    /// The prefix under which its data is cached, if it is.
    pub cache_prefix: Option<&'static str>,
}

/// Decides how a response is rendered from the serialized size of its data
/// (none when it carries no data), its cache policy and whether the cache
/// accepts writes. A response over `RESPONSE_SIZE_MAX` is refused before
/// anything is cached.
pub fn plan_response(data_size: Option<usize>, policy: CachePolicy, writes_enabled: bool) -> (r:
    Result<ResponsePlan, String>)
    ensures
        match data_size {
            Some(n) => if n > RESPONSE_SIZE_MAX {
                r matches Err(m) && m@ == too_large_text(n as nat)
            } else {
                r == Ok::<ResponsePlan, String>(
                    (ResponsePlan {
                        warn_large: n > RESPONSE_SIZE_WARN_THRESHOLD,
                        cache_prefix: stored_under(policy, true, writes_enabled),
                    }),
                )
            },
            None => r == Ok::<ResponsePlan, String>(
                (ResponsePlan {
                    warn_large: false,
                    cache_prefix: stored_under(policy, false, writes_enabled),
                }),
            ),
        },
{
    let warn_large = match data_size {
        Some(n) => match classify_response_size(n) {
            ResponseSize::TooLarge => {
                return Err(too_large_message(n));
            },
            ResponseSize::Large => true,
            ResponseSize::Normal => false,
        },
        None => false,
    };
    let cache_prefix = cache_prefix_for(policy, data_size.is_some(), writes_enabled);
    Ok(ResponsePlan { warn_large, cache_prefix })
}

/// The thresholds are ordered: a response is refused only beyond the size
/// that already counts as large.
pub proof fn lemma_size_thresholds_ordered()
    ensures
        RESPONSE_SIZE_WARN_THRESHOLD < RESPONSE_SIZE_MAX,
{
}

} // verus!
