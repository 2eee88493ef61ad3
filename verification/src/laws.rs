//! The library's laws, stated over the same spec functions the handler
//! contracts use, so a caller can chain them with the contracts of
//! `handle_upload` and `handle_video`.

use vstd::prelude::*;
use crate::http::{UploadField, field_ok, field_name_view, store_after};

verus! {

/// Round-trip integrity: publishing a field and then looking its name
/// up yields exactly the bytes that were uploaded, whatever the store
/// held before.
pub proof fn law_round_trip(m: Map<Seq<char>, Seq<u8>>, f: UploadField)
    requires
        field_ok(f),
    ensures
        store_after(m, seq![f]).contains_key(field_name_view(f)),
        store_after(m, seq![f])[field_name_view(f)] == f.data@,
{
    assert(seq![f].drop_last() =~= Seq::<UploadField>::empty());
}

/// Last writer wins: publishing two fields under the same name, in
/// order, leaves the second field's bytes as the resident value.
pub proof fn law_last_writer_wins(m: Map<Seq<char>, Seq<u8>>, f1: UploadField, f2: UploadField)
    requires
        field_ok(f1),
        field_ok(f2),
        field_name_view(f1) == field_name_view(f2),
    ensures
        store_after(m, seq![f1, f2]).contains_key(field_name_view(f2)),
        store_after(m, seq![f1, f2])[field_name_view(f2)] == f2.data@,
{
    assert(seq![f1, f2].drop_last() =~= seq![f1]);
    assert(seq![f1].drop_last() =~= Seq::<UploadField>::empty());
}

/// Isolation: publishing any sequence of fields whose names all differ
/// from `x` neither creates, removes nor changes the binding of `x`.
/// In particular, concurrent uploads under disjoint names cannot
/// cross-contaminate, and a name never uploaded stays absent.
pub proof fn law_isolation(m: Map<Seq<char>, Seq<u8>>, fields: Seq<UploadField>, x: Seq<char>)
    requires
        forall|i: int| 0 <= i < fields.len() ==> field_name_view(fields[i]) != x,
    ensures
        store_after(m, fields).contains_key(x) <==> m.contains_key(x),
        store_after(m, fields).contains_key(x) ==> store_after(m, fields)[x] == m[x],
    decreases fields.len(),
{
    if fields.len() > 0 {
        law_isolation(m, fields.drop_last(), x);
        assert(field_name_view(fields.last()) != x);
    }
}

/// A name is resident after an upload exactly when the store already
/// held it or some published field carries it: uploads touch no other
/// part of the store's domain.
pub proof fn law_domain(m: Map<Seq<char>, Seq<u8>>, fields: Seq<UploadField>, x: Seq<char>)
    ensures
        store_after(m, fields).contains_key(x) <==> (m.contains_key(x) || exists|i: int|
            0 <= i < fields.len() && field_name_view(fields[i]) == x),
    decreases fields.len(),
{
    if fields.len() > 0 {
        law_domain(m, fields.drop_last(), x);
        if store_after(m, fields).contains_key(x) && field_name_view(fields.last()) != x {
            if !m.contains_key(x) {
                let i = choose|i: int|
                    0 <= i < fields.drop_last().len() && field_name_view(
                        fields.drop_last()[i],
                    ) == x;
                assert(field_name_view(fields[i]) == x);
            }
        } else if field_name_view(fields.last()) == x {
            assert(field_name_view(fields[fields.len() - 1]) == x);
        } else if exists|i: int| 0 <= i < fields.len() && field_name_view(fields[i]) == x {
            let i = choose|i: int| 0 <= i < fields.len() && field_name_view(fields[i]) == x;
            if i < fields.len() - 1 {
                assert(field_name_view(fields.drop_last()[i]) == x);
            }
        }
    }
}

} // verus!
