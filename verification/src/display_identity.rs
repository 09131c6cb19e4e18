//! Display identity: a stable, human-meaningful label for a physical display,
//! computed purely from OS-reported metadata, and collision detection across a
//! display set.

use vstd::prelude::*;
use vstd::string::StringExecFns;
use crate::decimal::dec_rep;
use crate::decimal::u64_to_decimal;

verus! {

/// OS-reported metadata of one display. Which fields are populated varies by
/// platform: some report manufacturer id, model name and serial number, others
/// only a platform-specific opaque id.
pub struct DisplayMetadata {
    pub manufacturer_id: Option<String>,
    pub model_name: Option<String>,
    pub serial_number: Option<String>,
    pub opaque_id: Option<String>,
}

/// An optional field that is there and non-empty.
pub open spec fn present(f: Option<String>) -> bool {
    f is Some && f.unwrap()@.len() > 0
}

/// The text of an optional field; empty when the field is missing.
pub open spec fn field_text(f: Option<String>) -> Seq<char> {
    match f {
        Some(s) => s@,
        None => Seq::empty(),
    }
}

/// The present hardware-identity fields, in the fixed order manufacturer id,
/// model name, serial number.
pub open spec fn hw_parts(m: DisplayMetadata) -> Seq<Seq<char>> {
    (if present(m.manufacturer_id) {
        seq![m.manufacturer_id.unwrap()@]
    } else {
        Seq::empty()
    }) + (if present(m.model_name) {
        seq![m.model_name.unwrap()@]
    } else {
        Seq::empty()
    }) + (if present(m.serial_number) {
        seq![m.serial_number.unwrap()@]
    } else {
        Seq::empty()
    })
}

/// The given parts joined with a single space between neighbours.
pub open spec fn sep_join(parts: Seq<Seq<char>>) -> Seq<char>
    decreases parts.len(),
{
    if parts.len() == 0 {
        Seq::empty()
    } else if parts.len() == 1 {
        parts[0]
    } else {
        sep_join(parts.drop_last()) + seq![' '] + parts.last()
    }
}

/// The identity text of a display: its present hardware fields joined with
/// spaces, or, when none of them is usable, its opaque platform id.
pub open spec fn id_of(m: DisplayMetadata) -> Seq<char> {
    if hw_parts(m).len() > 0 {
        sep_join(hw_parts(m))
    } else {
        field_text(m.opaque_id)
    }
}

/// The label of a display: its identity text in single quotes, with an
/// optional ordinal appended as " #<ordinal>" before the closing quote.
pub open spec fn label_of(m: DisplayMetadata, ordinal: Option<usize>) -> Seq<char> {
    seq!['\''] + id_of(m) + (match ordinal {
        Some(n) => seq![' ', '#'] + dec_rep(n as nat),
        None => Seq::empty(),
    }) + seq!['\'']
}

/// True when some metadata field of the display is non-empty.
pub open spec fn has_identity(m: DisplayMetadata) -> bool {
    present(m.manufacturer_id) || present(m.model_name) || present(m.serial_number)
        || present(m.opaque_id)
}

/// Labels of a whole display set are pairwise distinct (no ordinals applied).
pub open spec fn distinct_labels(ds: Seq<DisplayMetadata>) -> bool {
    forall|i: int, j: int|
        0 <= i < j < ds.len() ==> label_of(ds[i], None) != label_of(ds[j], None)
}

/// Appends `part` to `id`, with a separating space unless `id` still stands
/// for an empty part list.
fn push_part(id: &mut String, part: &String, any: bool, Ghost(parts): Ghost<Seq<Seq<char>>>)
    requires
        old(id)@ == sep_join(parts),
        any == (parts.len() > 0),
    ensures
        final(id)@ == sep_join(parts.push(part@)),
{
    if any {
        id.append(" ");
    }
    id.append(part.as_str());
    proof {
        reveal_strlit(" ");
        let grown = parts.push(part@);
        assert(grown.drop_last() =~= parts);
        assert(grown.last() == part@);
        if parts.len() == 0 {
            assert(id@ =~= part@);
        } else {
            assert(id@ =~= sep_join(parts) + seq![' '] + part@);
        }
    }
}

/// The identity text of a display, per `id_of`.
fn joined_id(meta: &DisplayMetadata) -> (r: String)
    ensures
        r@ == id_of(*meta),
{
    let mut id = String::new();
    let mut any = false;
    let ghost mut parts: Seq<Seq<char>> = Seq::empty();
    if let Some(s) = &meta.manufacturer_id {
        if !s.as_str().is_empty() {
            push_part(&mut id, s, any, Ghost(parts));
            any = true;
            proof {
                parts = parts.push(s@);
            }
        }
    }
    if let Some(s) = &meta.model_name {
        if !s.as_str().is_empty() {
            push_part(&mut id, s, any, Ghost(parts));
            any = true;
            proof {
                parts = parts.push(s@);
            }
        }
    }
    if let Some(s) = &meta.serial_number {
        if !s.as_str().is_empty() {
            push_part(&mut id, s, any, Ghost(parts));
            any = true;
            proof {
                parts = parts.push(s@);
            }
        }
    }
    proof {
        assert(parts =~= hw_parts(*meta));
    }
    if !any {
        if let Some(s) = &meta.opaque_id {
            if !s.as_str().is_empty() {
                id.append(s.as_str());
                proof {
                    assert(id@ =~= s@);
                }
            }
        }
        proof {
            assert(id@ =~= field_text(meta.opaque_id));
        }
    }
    id
}

/// Builds the label of one display from its metadata: the present fields
/// joined with single spaces and wrapped in single quotes, with the ordinal,
/// if one is given, appended as " #<ordinal>" before the closing quote.
/// Missing fields are omitted, never an error: the function is total.
pub fn label(meta: &DisplayMetadata, ordinal: Option<usize>) -> (r: String)
    ensures
        r@ == label_of(*meta, ordinal),
{
    let mut r = String::from_str("'");
    let id = joined_id(meta);
    r.append(id.as_str());
    if let Some(n) = ordinal {
        r.append(" #");
        let digits = u64_to_decimal(n as u64);
        r.append(digits.as_str());
    }
    r.append("'");
    proof {
        reveal_strlit("'");
        reveal_strlit(" #");
        assert(r@ =~= label_of(*meta, ordinal));
    }
    r
}

/// A label is never the empty string, and whenever some metadata field is
/// non-empty its identity text is non-empty too, so the label holds more than
/// the two quotes.
pub proof fn lemma_label_never_empty(m: DisplayMetadata, ordinal: Option<usize>)
    ensures
        label_of(m, ordinal).len() >= 2,
        has_identity(m) ==> id_of(m).len() > 0 && label_of(m, ordinal).len() > 2,
{
    if has_identity(m) {
        let parts = hw_parts(m);
        if parts.len() > 0 {
            lemma_sep_join_keeps_first(parts);
            assert(parts[0].len() > 0);
        }
    }
}

/// Joining keeps the first part: the joined text is at least as long.
proof fn lemma_sep_join_keeps_first(parts: Seq<Seq<char>>)
    requires
        parts.len() > 0,
    ensures
        sep_join(parts).len() >= parts[0].len(),
    decreases parts.len(),
{
    if parts.len() > 1 {
        lemma_sep_join_keeps_first(parts.drop_last());
    }
}

/// Whether the labels of all displays in the set are pairwise distinct, with
/// no ordinal applied. A caller uses a `false` answer to decide to ask for
/// ordinal-qualified labels; assigning ordinals is the caller's policy.
pub fn all_unique(displays: &Vec<DisplayMetadata>) -> (r: bool)
    ensures
        r == distinct_labels(displays@),
{
    let ghost ds = displays@;
    let mut labels: Vec<String> = Vec::new();
    let mut k: usize = 0;
    while k < displays.len()
        invariant
            k <= displays.len(),
            ds == displays@,
            labels@.len() == k,
            forall|t: int| 0 <= t < k ==> labels@[t]@ == label_of(ds[t], None),
        decreases displays.len() - k,
    {
        let l = label(&displays[k], None);
        labels.push(l);
        k = k + 1;
    }
    let n = displays.len();
    let mut i: usize = 0;
    while i < n
        invariant
            i <= n,
            n == ds.len(),
            ds == displays@,
            labels@.len() == n,
            forall|t: int| 0 <= t < n ==> labels@[t]@ == label_of(ds[t], None),
            forall|p: int, q: int| 0 <= p < q < ds.len() && p < i ==> label_of(ds[p], None) != label_of(ds[q], None),
        decreases n - i,
    {
        let mut j: usize = i + 1;
        while j < n
            invariant
                i < j <= n,
                n == ds.len(),
                ds == displays@,
                labels@.len() == n,
                forall|t: int| 0 <= t < n ==> labels@[t]@ == label_of(ds[t], None),
                forall|q: int| i < q < j ==> label_of(ds[i as int], None) != label_of(ds[q], None),
            decreases n - j,
        {
            if labels[i] == labels[j] {
                proof {
                    assert(label_of(ds[i as int], None) == label_of(ds[j as int], None));
                    assert(!distinct_labels(ds));
                }
                return false;
            }
            j = j + 1;
        }
        i = i + 1;
    }
    true
}

} // verus!
