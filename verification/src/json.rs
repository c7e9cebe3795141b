//! Generator for a generic document-value shape: a tagged union over
//! number, boolean, text, array, null and object, with the tag chosen
//! uniformly among the six.
//!
//! Numbers are carried as thousandths (`n` stands for `n / 1000`), so
//! a generated number survives a round trip through decimal text
//! exactly. Nesting is cut off at a fixed depth, where generation
//! closes with the null tag.

use vstd::prelude::*;
use crate::Random;
use crate::base;
use crate::num;
use crate::rng;

verus! {

/// How deep generated arrays and objects may nest.
pub const JSON_DEPTH_LIMIT: u64 = 3;

/// A generic document value.
pub enum JsonValue {
    /// A fractional number in `[0, 1]`, carried as thousandths.
    Number(u32),
    Bool(bool),
    Text(String),
    Array(Vec<JsonValue>),
    Null,
    /// Members in generation order; colliding keys are kept here and
    /// collapse only when the value is handed to a mapping type.
    Object(Vec<(String, JsonValue)>),
}

impl JsonValue {
    /// Structural well-formedness of a generated document value:
    /// numbers are valid thousandths, and every text, array and
    /// object level is shorter than `LEN_LIMIT`.
    pub open spec fn gen_wf(self) -> bool
        decreases self,
    {
        match self {
            JsonValue::Number(n) => n <= 1000,
            JsonValue::Bool(_) => true,
            JsonValue::Text(s) => s.gen_valid(),
            JsonValue::Array(items) => {
                &&& items@.len() < crate::LEN_LIMIT as nat
                &&& forall|i: int| 0 <= i < items@.len() ==> (#[trigger] items@[i]).gen_wf()
            },
            JsonValue::Null => true,
            JsonValue::Object(members) => {
                &&& members@.len() < crate::LEN_LIMIT as nat
                &&& forall|i: int|
                    0 <= i < members@.len() ==> {
                        &&& (#[trigger] members@[i]).0.gen_valid()
                        &&& members@[i].1.gen_wf()
                    }
            },
        }
    }
}

/// Generates one document value. The tag is drawn uniformly among the
/// six; `always_null` forces the null tag instead, and generation also
/// closes with null once `depth` is exhausted.
pub fn random_json_value(depth: u64, always_null: bool) -> (v: JsonValue)
    ensures
        v.gen_wf(),
        always_null ==> v is Null,
    decreases depth,
{
    if always_null || depth == 0 {
        return JsonValue::Null;
    }
    let tag = rng::rand_range_u64(0, 6);
    if tag == 0 {
        JsonValue::Number(num::random_thousandths())
    } else if tag == 1 {
        JsonValue::Bool(rng::rand_bool())
    } else if tag == 2 {
        JsonValue::Text(base::random_string())
    } else if tag == 3 {
        let len = rng::rand_range_u64(0, crate::LEN_LIMIT as u64) as usize;
        let mut items: Vec<JsonValue> = Vec::new();
        let mut i: usize = 0;
        while i < len
            invariant
                i <= len,
                len < crate::LEN_LIMIT,
                depth >= 1,
                items@.len() == i as nat,
                forall|j: int| 0 <= j < items@.len() ==> (#[trigger] items@[j]).gen_wf(),
            decreases len - i,
        {
            items.push(random_json_value(depth - 1, false));
            i = i + 1;
        }
        JsonValue::Array(items)
    } else if tag == 4 {
        JsonValue::Null
    } else {
        let len = rng::rand_range_u64(0, crate::LEN_LIMIT as u64) as usize;
        let mut members: Vec<(String, JsonValue)> = Vec::new();
        let mut i: usize = 0;
        while i < len
            invariant
                i <= len,
                len < crate::LEN_LIMIT,
                depth >= 1,
                members@.len() == i as nat,
                forall|j: int|
                    0 <= j < members@.len() ==> {
                        &&& (#[trigger] members@[j]).0.gen_valid()
                        &&& members@[j].1.gen_wf()
                    },
            decreases len - i,
        {
            members.push((base::random_string(), random_json_value(depth - 1, false)));
            i = i + 1;
        }
        JsonValue::Object(members)
    }
}

impl Random for JsonValue {
    open spec fn gen_valid(&self) -> bool {
        self.gen_wf()
    }

    fn random() -> (r: Self) {
        random_json_value(JSON_DEPTH_LIMIT, false)
    }
}

} // verus!
