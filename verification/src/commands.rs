//! The checks the recorder's commands make on what the user interface sends.
use vstd::prelude::*;
use crate::text::{str_trim, trim_spec};

verus! {

/// The number of records listed when the interface does not say.
pub open spec fn default_list_limit() -> i64 {
    100
}

/// The number of records a listing returns: the requested number (100 when
/// none is given), brought into 1..=500.
pub open spec fn safe_limit_spec(limit: Option<i64>) -> i64 {
    let l: i64 = match limit {
        Some(l) => l,
        None => default_list_limit(),
    };
    if l < 1 {
        1
    } else if l > 500 {
        500
    } else {
        l
    }
}

/// Brings a requested listing size into 1..=500 (100 when none is given).
pub fn safe_limit(limit: Option<i64>) -> (res: i64)
    ensures
        res == safe_limit_spec(limit),
        1 <= res <= 500,
{
    let l: i64 = match limit {
        Some(l) => l,
        None => 100,
    };
    if l < 1 {
        1
    } else if l > 500 {
        500
    } else {
        l
    }
}

/// The message given for a text that is empty once trimmed.
pub open spec fn empty_text_message() -> Seq<char> {
    seq!['文', '本', '内', '容', '不', '能', '为', '空']
}

/// Accepts a text typed in by the user for recording, unless it is empty
/// once leading and trailing white space is removed.
pub fn check_text_record(content: &str) -> (res: Result<(), String>)
    ensures
        res is Ok <==> trim_spec(content@).len() > 0,
        res matches Err(msg) ==> msg@ == empty_text_message(),
{
    if str_trim(content).is_empty() {
        let msg = String::from_str("文本内容不能为空");
        proof {
            reveal_strlit("文本内容不能为空");
        }
        assert(msg@ =~= empty_text_message());
        Err(msg)
    } else {
        Ok(())
    }
}

} // verus!
