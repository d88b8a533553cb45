use vstd::prelude::*;

use crate::name_table::{parse_name_table, parse_ok, parsed_names_of};
use crate::record::{
    build_record, key_of, record_from, FontData, FontDataView, FontInput, FontInputView,
};

verus! {

/// The record built for handle `h` when its bytes parse.
pub open spec fn record_of(h: FontInputView) -> FontDataView {
    record_from(h, parsed_names_of(h.data, h.face_index))
}

/// The views of a sequence of handles.
pub open spec fn input_views(s: Seq<FontInput>) -> Seq<FontInputView> {
    s.map_values(|h: FontInput| h@)
}

/// The views of a sequence of records.
pub open spec fn record_views(s: Seq<FontData>) -> Seq<FontDataView> {
    s.map_values(|d: FontData| d@)
}

/// The listing walk over `inputs`, with `seen` the keys already taken:
/// a handle whose key was seen is skipped; otherwise its key is marked
/// seen, and it contributes a record exactly when its bytes parse.
pub open spec fn list_rec(inputs: Seq<FontInputView>, seen: Set<Seq<char>>) -> Seq<FontDataView>
    decreases inputs.len(),
{
    if inputs.len() == 0 {
        Seq::empty()
    } else {
        let h = inputs[0];
        let rest = inputs.drop_first();
        if seen.contains(key_of(h)) {
            list_rec(rest, seen)
        } else if parse_ok(h.data, h.face_index) {
            seq![record_of(h)] + list_rec(rest, seen.insert(key_of(h)))
        } else {
            list_rec(rest, seen.insert(key_of(h)))
        }
    }
}

/// The full listing: every handle in order, de-duplicated by key, each
/// unparseable font skipped.
pub open spec fn font_list_of(inputs: Seq<FontInputView>) -> Seq<FontDataView> {
    list_rec(inputs, Set::empty())
}

/// The set of keys held by the seen-list.
pub open spec fn keys_of(seen: Seq<String>) -> Set<Seq<char>> {
    Set::new(|k: Seq<char>| exists|j: int| 0 <= j < seen.len() && seen[j]@ == k)
}

fn contains_key(seen: &Vec<String>, key: &String) -> (r: bool)
    ensures
        r == keys_of(seen@).contains(key@),
{
    let mut j: usize = 0;
    while j < seen.len()
        invariant
            j <= seen@.len(),
            forall|t: int| 0 <= t < j ==> seen@[t]@ != key@,
        decreases seen@.len() - j,
    {
        if crate::name_table::str_eq(seen[j].as_str(), key.as_str()) {
            assert(keys_of(seen@).contains(key@));
            return true;
        }
        j = j + 1;
    }
    false
}

/// Builds the metadata listing: walks the handles in order, keeps the
/// first handle of each key (the display path, or the in-memory
/// sentinel), parses each kept handle's bytes, and collects a record for
/// every font that parses; a font whose bytes do not parse is skipped,
/// never aborting the listing.
pub fn collect_font_list(inputs: &Vec<FontInput>) -> (r: Vec<FontData>)
    ensures
        record_views(r@) == font_list_of(input_views(inputs@)),
{
    let ghost all = input_views(inputs@);
    let mut out: Vec<FontData> = Vec::new();
    let mut seen: Vec<String> = Vec::new();
    let mut i: usize = 0;
    proof {
        assert(all.skip(0) =~= all);
        assert(keys_of(seen@) =~= Set::<Seq<char>>::empty());
        assert(record_views(out@) =~= Seq::<FontDataView>::empty());
        assert(record_views(out@) + font_list_of(all) =~= font_list_of(all));
    }
    while i < inputs.len()
        invariant
            i <= inputs@.len(),
            all == input_views(inputs@),
            font_list_of(all) == record_views(out@) + list_rec(all.skip(i as int), keys_of(seen@)),
        decreases inputs@.len() - i,
    {
        let input = &inputs[i];
        let key = crate::record::display_key(input);
        let ghost pre = all.skip(i as int);
        let ghost keyv = key@;
        proof {
            assert(pre[0] == all[i as int]);
            assert(pre.drop_first() =~= all.skip(i + 1));
            assert(keyv == key_of(all[i as int]));
        }
        if !contains_key(&seen, &key) {
            let ghost seen0 = keys_of(seen@);
            let ghost old_seq = seen@;
            seen.push(key);
            proof {
                assert(seen@[old_seq.len() as int]@ == keyv);
                assert forall|k: Seq<char>| keys_of(seen@).contains(k) implies seen0.contains(k)
                    || k == keyv by {
                    let j = choose|j: int| 0 <= j < seen@.len() && seen@[j]@ == k;
                    if j < old_seq.len() {
                        assert(old_seq[j]@ == k);
                    }
                };
                assert forall|k: Seq<char>| seen0.contains(k) || k == keyv implies keys_of(
                    seen@,
                ).contains(k) by {
                    if seen0.contains(k) {
                        let j = choose|j: int| 0 <= j < old_seq.len() && old_seq[j]@ == k;
                        assert(seen@[j]@ == k);
                    } else {
                        assert(seen@[old_seq.len() as int]@ == k);
                    }
                };
                assert(keys_of(seen@) =~= seen0.insert(keyv));
            }
            match parse_name_table(&input.data, input.face_index) {
                Ok(parsed) => {
                    let ghost old_out = out@;
                    let rec = build_record(input, parsed);
                    out.push(rec);
                    proof {
                        assert(record_views(out@) =~= record_views(old_out).push(
                            record_of(all[i as int]),
                        ));
                        assert(record_views(old_out) + (seq![record_of(all[i as int])] + list_rec(
                            all.skip(i + 1),
                            keys_of(seen@),
                        )) =~= record_views(out@) + list_rec(all.skip(i + 1), keys_of(seen@)));
                    }
                },
                Err(_) => {},
            }
        }
        i = i + 1;
    }
    proof {
        assert(all.skip(all.len() as int) =~= Seq::<FontInputView>::empty());
        assert(record_views(out@) + Seq::<FontDataView>::empty() =~= record_views(out@));
    }
    out
}

// ---------------------------------------------------------------------------
// Laws of the listing
// ---------------------------------------------------------------------------

proof fn lemma_list_rec_paths(inputs: Seq<FontInputView>, seen: Set<Seq<char>>)
    ensures
        forall|k: int|
            0 <= k < list_rec(inputs, seen).len() ==> !seen.contains(
                #[trigger] list_rec(inputs, seen)[k].path,
            ),
        forall|i: int, j: int|
            0 <= i < j < list_rec(inputs, seen).len() ==> list_rec(inputs, seen)[i].path
                != list_rec(inputs, seen)[j].path,
    decreases inputs.len(),
{
    if inputs.len() == 0 {
    } else {
        let h = inputs[0];
        let rest = inputs.drop_first();
        let key = key_of(h);
        if seen.contains(key) {
            lemma_list_rec_paths(rest, seen);
        } else if parse_ok(h.data, h.face_index) {
            lemma_list_rec_paths(rest, seen.insert(key));
            let tail = list_rec(rest, seen.insert(key));
            let whole = list_rec(inputs, seen);
            assert(whole[0] == record_of(h));
            assert(record_of(h).path == key);
            assert(forall|k: int| 1 <= k < whole.len() ==> whole[k] == tail[k - 1]);
            assert(forall|k: int|
                1 <= k < whole.len() ==> !seen.insert(key).contains(#[trigger] whole[k].path));
        } else {
            lemma_list_rec_paths(rest, seen.insert(key));
            let whole = list_rec(inputs, seen);
            assert(forall|k: int|
                0 <= k < whole.len() ==> !seen.insert(key).contains(#[trigger] whole[k].path));
        }
    }
}

/// Law: each physical file contributes at most one record per listing:
/// no two records of one listing share a path, however often the
/// registry reported the file.
pub proof fn lemma_list_paths_unique(inputs: Seq<FontInputView>)
    ensures
        forall|i: int, j: int|
            0 <= i < j < font_list_of(inputs).len() ==> font_list_of(inputs)[i].path
                != font_list_of(inputs)[j].path,
{
    lemma_list_rec_paths(inputs, Set::empty());
}

proof fn lemma_list_rec_first(inputs: Seq<FontInputView>, seen: Set<Seq<char>>, i: int)
    requires
        0 <= i < inputs.len(),
        parse_ok(inputs[i].data, inputs[i].face_index),
        !seen.contains(key_of(inputs[i])),
        forall|j: int| 0 <= j < i ==> key_of(inputs[j]) != key_of(inputs[i]),
    ensures
        list_rec(inputs, seen).contains(record_of(inputs[i])),
    decreases inputs.len(),
{
    let h = inputs[0];
    let rest = inputs.drop_first();
    let key = key_of(h);
    if i == 0 {
        assert(list_rec(inputs, seen)[0] == record_of(h));
    } else {
        assert(forall|j: int| 0 <= j < i - 1 ==> key_of(rest[j]) == key_of(inputs[j + 1]));
        if seen.contains(key) {
            lemma_list_rec_first(rest, seen, i - 1);
            let tail = list_rec(rest, seen);
            let k = choose|k: int| 0 <= k < tail.len() && tail[k] == record_of(inputs[i]);
            assert(list_rec(inputs, seen)[k] == record_of(inputs[i]));
        } else {
            assert(key_of(inputs[0]) != key_of(inputs[i]));
            lemma_list_rec_first(rest, seen.insert(key), i - 1);
            let tail = list_rec(rest, seen.insert(key));
            let k = choose|k: int| 0 <= k < tail.len() && tail[k] == record_of(inputs[i]);
            if parse_ok(h.data, h.face_index) {
                assert(list_rec(inputs, seen)[k + 1] == record_of(inputs[i]));
            } else {
                assert(list_rec(inputs, seen)[k] == record_of(inputs[i]));
            }
        }
    }
}

/// Law: the first handle of each key is the one that counts: when its
/// bytes parse, the listing holds its record, even if the registry
/// reported the same file again later.
pub proof fn lemma_first_occurrence_listed(inputs: Seq<FontInputView>, i: int)
    requires
        0 <= i < inputs.len(),
        parse_ok(inputs[i].data, inputs[i].face_index),
        forall|j: int| 0 <= j < i ==> key_of(inputs[j]) != key_of(inputs[i]),
    ensures
        font_list_of(inputs).contains(record_of(inputs[i])),
{
    lemma_list_rec_first(inputs, Set::empty(), i);
}

} // verus!
