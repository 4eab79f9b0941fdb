//! Properties of the service that relate several operations.

use crate::ident::id_text;
use crate::link::{LinkError, LinkModel};
use crate::table::{change_spec, create_spec, resolve_spec, Links};
use crate::target::url_serialization;
use vstd::prelude::*;

verus! {

/// A link that `create` returns resolves, in the table it leaves behind, to
/// exactly the target that `create` returned, the normalized form of the URL.
pub proof fn law_create_then_resolve(m: Links, slow: bool, raw: Seq<char>, n: u32)
    ensures
        create_spec(m, slow, raw, n).1 is Ok ==> {
            let l = create_spec(m, slow, raw, n).1->Ok_0;
            &&& Some(l.target_url) == url_serialization(raw)
            &&& l.id == id_text(n)
            &&& resolve_spec(create_spec(m, slow, raw, n).0, slow, l.id) == Ok::<
                Seq<char>,
                LinkError,
            >(l.target_url)
        },
{
}

/// A string that is not an absolute URL is refused with `InvalidUrl`, and the
/// table is left as it was, slow or not.
pub proof fn law_invalid_url_never_stored(m: Links, slow: bool, raw: Seq<char>, n: u32, id: Seq<char>)
    requires
        url_serialization(raw) is None,
    ensures
        create_spec(m, slow, raw, n) == (m, Err::<LinkModel, LinkError>(LinkError::InvalidUrl)),
        change_spec(m, slow, id, raw) == (m, Err::<LinkModel, LinkError>(LinkError::InvalidUrl)),
{
}

/// An identifier that the table does not hold resolves to `NotFound`.
pub proof fn law_unknown_id_not_found(m: Links, id: Seq<char>)
    requires
        !m.contains_key(id),
    ensures
        resolve_spec(m, false, id) == Err::<Seq<char>, LinkError>(LinkError::NotFound),
{
}

/// The only identifier that `create` can add is the one it issues, and
/// `update` adds none: a table holds no identifier that was never issued.
pub proof fn law_only_issued_ids(m: Links, slow: bool, raw: Seq<char>, n: u32, id: Seq<char>)
    ensures
        create_spec(m, slow, raw, n).0.dom() <= m.dom().insert(id_text(n)),
        change_spec(m, slow, id, raw).0.dom() == m.dom(),
{
    assert(change_spec(m, slow, id, raw).0.dom() =~= m.dom());
}

/// After a successful `create`, an `update` of its identifier to a valid URL
/// keeps the identifier and makes later resolves return the new normalized
/// target.
pub proof fn law_update_after_create(m: Links, raw: Seq<char>, n: u32, raw2: Seq<char>)
    requires
        create_spec(m, false, raw, n).1 is Ok,
        url_serialization(raw2) is Some,
    ensures
        ({
            let m1 = create_spec(m, false, raw, n).0;
            let id = create_spec(m, false, raw, n).1->Ok_0.id;
            let t2 = url_serialization(raw2)->Some_0;
            &&& change_spec(m1, false, id, raw2).1 == Ok::<LinkModel, LinkError>(
                LinkModel { id, target_url: t2 },
            )
            &&& resolve_spec(change_spec(m1, false, id, raw2).0, false, id) == Ok::<
                Seq<char>,
                LinkError,
            >(t2)
        }),
{
}

/// On a store slower than the time bound, every request with a valid URL
/// ends in `Timeout`.
pub proof fn law_slow_store_times_out(m: Links, raw: Seq<char>, n: u32, id: Seq<char>)
    requires
        url_serialization(raw) is Some,
    ensures
        create_spec(m, true, raw, n).1 == Err::<LinkModel, LinkError>(LinkError::Timeout),
        change_spec(m, true, id, raw).1 == Err::<LinkModel, LinkError>(LinkError::Timeout),
        resolve_spec(m, true, id) == Err::<Seq<char>, LinkError>(LinkError::Timeout),
{
}

/// A second `create` whose identifier collides with a link already created
/// fails with `Duplicate` and leaves the first link as it was.
pub proof fn law_collision_refused(m: Links, raw: Seq<char>, n: u32, raw2: Seq<char>, n2: u32)
    requires
        create_spec(m, false, raw, n).1 is Ok,
        url_serialization(raw2) is Some,
        id_text(n2) == id_text(n),
    ensures
        ({
            let m1 = create_spec(m, false, raw, n).0;
            &&& create_spec(m1, false, raw2, n2) == (m1, Err::<LinkModel, LinkError>(
                LinkError::Duplicate,
            ))
            &&& resolve_spec(m1, false, id_text(n)) == Ok::<Seq<char>, LinkError>(
                url_serialization(raw)->Some_0,
            )
        }),
{
}

} // verus!
