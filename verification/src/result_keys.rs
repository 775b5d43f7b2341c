//! The keys under which an evaluation result is offered as a mapping, and
//! the data handlers it provides.
use vstd::prelude::*;

use crate::export::ResultParts;
use crate::registry::distinct_texts;
use crate::text::{chars_eq, chars_of, owned, string_views};

verus! {

/// The keys of a result, in order: time, impedance and log time always; the
/// derivative with its interpolated values and log time when present; the
/// spectrum when present; the Foster network with its resistances and
/// capacitances when present; the Cauer ladder with its resistances,
/// capacitances, their running sums and the differential structure when
/// present.
pub open spec fn result_keys_spec(parts: ResultParts) -> Seq<Seq<char>> {
    seq!["time"@, "impedance"@, "log_time"@] + (if parts.has_derivative {
        seq!["derivative"@, "imp_deriv_interp"@, "log_time_interp"@]
    } else {
        Seq::empty()
    }) + (if parts.has_time_spectrum {
        seq!["time_spec"@]
    } else {
        Seq::empty()
    }) + (if parts.has_foster {
        seq!["foster"@, "therm_resist_fost"@, "therm_capa_fost"@]
    } else {
        Seq::empty()
    }) + (if parts.has_cauer {
        seq![
            "cauer"@,
            "cau_res"@,
            "cau_cap"@,
            "int_cau_res"@,
            "int_cau_cap"@,
            "diff_struc"@,
        ]
    } else {
        Seq::empty()
    })
}

/// The data handlers of a result: the impedance always; the spectrum when
/// present; the structure when the Cauer ladder is present.
pub open spec fn data_handlers_spec(parts: ResultParts) -> Seq<Seq<char>> {
    seq!["impedance"@] + (if parts.has_time_spectrum {
        seq!["time_spec"@]
    } else {
        Seq::empty()
    }) + (if parts.has_cauer {
        seq!["structure"@]
    } else {
        Seq::empty()
    })
}

fn push_owned(out: &mut Vec<String>, s: &str)
    ensures
        string_views(final(out)@) == string_views(old(out)@).push(s@),
{
    let ghost before = string_views(out@);
    out.push(owned(s));
    assert(string_views(out@) =~= before.push(s@));
}

/// The keys of a result; see [`result_keys_spec`].
pub fn evaluation_result_keys(parts: ResultParts) -> (r: Vec<String>)
    ensures
        string_views(r@) == result_keys_spec(parts),
{
    let mut keys: Vec<String> = Vec::new();
    assert(string_views(keys@) =~= Seq::<Seq<char>>::empty());
    push_owned(&mut keys, "time");
    push_owned(&mut keys, "impedance");
    push_owned(&mut keys, "log_time");
    if parts.has_derivative {
        push_owned(&mut keys, "derivative");
        push_owned(&mut keys, "imp_deriv_interp");
        push_owned(&mut keys, "log_time_interp");
    }
    if parts.has_time_spectrum {
        push_owned(&mut keys, "time_spec");
    }
    if parts.has_foster {
        push_owned(&mut keys, "foster");
        push_owned(&mut keys, "therm_resist_fost");
        push_owned(&mut keys, "therm_capa_fost");
    }
    if parts.has_cauer {
        push_owned(&mut keys, "cauer");
        push_owned(&mut keys, "cau_res");
        push_owned(&mut keys, "cau_cap");
        push_owned(&mut keys, "int_cau_res");
        push_owned(&mut keys, "int_cau_cap");
        push_owned(&mut keys, "diff_struc");
    }
    assert(string_views(keys@) =~= result_keys_spec(parts));
    keys
}

/// The data handlers of a result; see [`data_handlers_spec`].
pub fn data_handlers_for_result(parts: ResultParts) -> (r: Vec<String>)
    ensures
        string_views(r@) == data_handlers_spec(parts),
{
    let mut handlers: Vec<String> = Vec::new();
    assert(string_views(handlers@) =~= Seq::<Seq<char>>::empty());
    push_owned(&mut handlers, "impedance");
    if parts.has_time_spectrum {
        push_owned(&mut handlers, "time_spec");
    }
    if parts.has_cauer {
        push_owned(&mut handlers, "structure");
    }
    assert(string_views(handlers@) =~= data_handlers_spec(parts));
    handlers
}

/// Whether `key` is one of the keys of a result.
pub fn result_has_key(parts: ResultParts, key: &str) -> (r: bool)
    ensures
        r == result_keys_spec(parts).contains(key@),
{
    let keys = evaluation_result_keys(parts);
    let wanted = chars_of(key);
    let mut i: usize = 0;
    while i < keys.len()
        invariant
            i <= keys.len(),
            string_views(keys@) == result_keys_spec(parts),
            wanted@ == key@,
            forall|j: int| 0 <= j < i ==> #[trigger] string_views(keys@)[j] != key@,
        decreases keys.len() - i,
    {
        let candidate = chars_of(keys[i].as_str());
        if chars_eq(&candidate, &wanted) {
            assert(string_views(keys@)[i as int] == key@);
            return true;
        }
        i = i + 1;
    }
    assert(!string_views(keys@).contains(key@));
    false
}


/// Texts are told apart by their length, or their first, fifth or ninth
/// character.
pub(crate) proof fn lemma_texts_distinct(k: Seq<Seq<char>>)
    requires
        forall|i: int, j: int|
            0 <= i < j < k.len() ==> (#[trigger] k[i]).len() != (#[trigger] k[j]).len() || k[i][0]
                != k[j][0] || k[i][4] != k[j][4] || k[i][8] != k[j][8],
    ensures
        distinct_texts(k),
{
    assert forall|i: int, j: int|
        0 <= i < k.len() && 0 <= j < k.len() && i != j implies #[trigger] k[i] != #[trigger] k[j] by {
        if i > j {
            assert(k[j] != k[i]);
        }
    }
}

/// A result offers no key twice.
pub proof fn lemma_result_keys_distinct(parts: ResultParts)
    ensures
        distinct_texts(result_keys_spec(parts)),
{
    reveal_strlit("time");
    reveal_strlit("impedance");
    reveal_strlit("log_time");
    reveal_strlit("derivative");
    reveal_strlit("imp_deriv_interp");
    reveal_strlit("log_time_interp");
    reveal_strlit("time_spec");
    reveal_strlit("foster");
    reveal_strlit("therm_resist_fost");
    reveal_strlit("therm_capa_fost");
    reveal_strlit("cauer");
    reveal_strlit("cau_res");
    reveal_strlit("cau_cap");
    reveal_strlit("int_cau_res");
    reveal_strlit("int_cau_cap");
    reveal_strlit("diff_struc");
    let k = result_keys_spec(parts);
    lemma_texts_distinct(k);
}

} // verus!
