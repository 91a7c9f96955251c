//! Properties of creating and reading records, stated over the table that the
//! store and the service work on.
use vstd::prelude::*;
use crate::ident::uuid_parse_of;
use crate::record::{RecordView, ServiceError};
use crate::service::{create_spec, create_status_spec, read_spec, read_status_spec, read_text_spec};

verus! {

/// Creating the records of `rs` one after the other, from table `t`: the
/// final table and the answer to each create.
pub open spec fn create_all(t: Map<u128, RecordView>, rs: Seq<RecordView>) -> (Map<u128, RecordView>, Seq<Result<(), ServiceError>>)
    decreases rs.len(),
{
    if rs.len() == 0 {
        (t, Seq::empty())
    } else {
        let (t1, answers) = create_all(t, rs.drop_last());
        let (t2, a) = create_spec(t1, rs.last());
        (t2, answers.push(a))
    }
}

/// A record created under a fresh identifier is read back as it was given.
pub proof fn lemma_create_then_read(t: Map<u128, RecordView>, r: RecordView)
    requires
        !t.contains_key(r.id),
    ensures
        create_spec(t, r).1 == Ok::<(), ServiceError>(()),
        create_status_spec(create_spec(t, r).1) == 201,
        read_spec(create_spec(t, r).0, r.id) == Ok::<RecordView, ServiceError>(r),
        read_status_spec(read_spec(create_spec(t, r).0, r.id)) == 200,
{
}

/// Reading an identifier that no record has is answered with not found, and
/// with status 404.
pub proof fn lemma_read_absent(t: Map<u128, RecordView>, id: u128)
    requires
        !t.contains_key(id),
    ensures
        read_spec(t, id) == Err::<RecordView, ServiceError>(ServiceError::NotFound),
        read_status_spec(read_spec(t, id)) == 404,
{
}

/// A second create under the same identifier fails, with status 500, and
/// leaves the first record in place, unchanged.
pub proof fn lemma_duplicate_create(t: Map<u128, RecordView>, first: RecordView, second: RecordView)
    requires
        !t.contains_key(first.id),
        second.id == first.id,
    ensures
        create_spec(t, first).1 is Ok,
        create_spec(create_spec(t, first).0, second).1 == Err::<(), ServiceError>(ServiceError::Conflict),
        create_status_spec(create_spec(create_spec(t, first).0, second).1) == 500,
        create_spec(create_spec(t, first).0, second).0 == create_spec(t, first).0,
        read_spec(create_spec(create_spec(t, first).0, second).0, first.id)
            == Ok::<RecordView, ServiceError>(first),
{
}

/// A read by a text that is no identifier is a bad request, with status 400,
/// whatever the table holds.
pub proof fn lemma_malformed_id(t: Map<u128, RecordView>, s: Seq<char>)
    requires
        uuid_parse_of(s) is None,
    ensures
        read_text_spec(t, s) == Err::<RecordView, ServiceError>(ServiceError::BadRequest),
        read_status_spec(read_text_spec(t, s)) == 400,
{
}

/// Creates under pairwise distinct fresh identifiers, in whatever order they
/// are taken, all succeed; afterwards each of those records and each record
/// that was there before is read back unchanged.
pub proof fn lemma_distinct_creates(t: Map<u128, RecordView>, rs: Seq<RecordView>)
    requires
        forall|i: int, j: int| 0 <= i < j < rs.len() ==> rs[i].id != rs[j].id,
        forall|i: int| 0 <= i < rs.len() ==> !t.contains_key(#[trigger] rs[i].id),
    ensures
        create_all(t, rs).1.len() == rs.len(),
        forall|i: int| 0 <= i < rs.len() ==> #[trigger] create_all(t, rs).1[i] == Ok::<(), ServiceError>(()),
        forall|i: int|
            0 <= i < rs.len() ==> read_spec(create_all(t, rs).0, #[trigger] rs[i].id)
                == Ok::<RecordView, ServiceError>(rs[i]),
        forall|id: u128| #[trigger] t.contains_key(id) ==> read_spec(create_all(t, rs).0, id) == read_spec(t, id),
        forall|id: u128| #[trigger] t.contains_key(id) ==> create_all(t, rs).0.contains_key(id),
    decreases rs.len(),
{
    if rs.len() > 0 {
        let init = rs.drop_last();
        lemma_distinct_creates(t, init);
        let t1 = create_all(t, init).0;
        let last = rs.last();
        assert forall|i: int| 0 <= i < init.len() implies t1.contains_key(#[trigger] init[i].id) by {
            assert(read_spec(t1, init[i].id) is Ok);
        }
        assert(!t1.contains_key(last.id)) by {
            if t1.contains_key(last.id) {
                assert(forall|i: int| 0 <= i < init.len() ==> init[i].id != last.id);
                assert(!t.contains_key(rs[rs.len() - 1].id));
                lemma_table_growth(t, init, last.id);
            }
        }
        assert forall|i: int| 0 <= i < rs.len() implies #[trigger] create_all(t, rs).1[i] == Ok::<(), ServiceError>(()) by {
            if i < rs.len() - 1 {
                assert(create_all(t, init).1[i] == Ok::<(), ServiceError>(()));
            }
        }
        assert forall|i: int| 0 <= i < rs.len() implies read_spec(create_all(t, rs).0, #[trigger] rs[i].id)
            == Ok::<RecordView, ServiceError>(rs[i]) by {
            if i < rs.len() - 1 {
                assert(rs[i] == init[i]);
                assert(read_spec(t1, init[i].id) == Ok::<RecordView, ServiceError>(init[i]));
            }
        }
    }
}

/// The keys of the table after a run of creates are those of the start and
/// those created.
proof fn lemma_table_growth(t: Map<u128, RecordView>, rs: Seq<RecordView>, id: u128)
    requires
        create_all(t, rs).0.contains_key(id),
    ensures
        t.contains_key(id) || exists|i: int| 0 <= i < rs.len() && #[trigger] rs[i].id == id,
    decreases rs.len(),
{
    if rs.len() > 0 {
        let init = rs.drop_last();
        if !(create_all(t, init).0.contains_key(id)) {
            assert(rs[rs.len() - 1].id == id);
        } else {
            lemma_table_growth(t, init, id);
            if !t.contains_key(id) {
                let i = choose|i: int| 0 <= i < init.len() && #[trigger] init[i].id == id;
                assert(rs[i].id == id);
            }
        }
    }
}

} // verus!
