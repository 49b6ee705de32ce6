//! Method selection: the server, not the client, decides which of the
//! offered authentication methods is used.

use vstd::prelude::*;
use crate::codes::AuthMethod;

verus! {

/// The method selected from `offered`: the first entry of `supported`, the
/// server's list in its order of preference, whose code the client offered;
/// `None` when the client offered none of them.
pub open spec fn select_spec(supported: Seq<AuthMethod>, offered: Set<u8>) -> Option<AuthMethod>
    decreases supported.len(),
{
    if supported.len() == 0 {
        None
    } else if offered.contains(supported[0].code()) {
        Some(supported[0])
    } else {
        select_spec(supported.drop_first(), offered)
    }
}

/// Whether `code` occurs among `offered`.
pub fn offers(offered: &[u8], code: u8) -> (found: bool)
    ensures
        found == offered@.to_set().contains(code),
{
    let mut i: usize = 0;
    while i < offered.len()
        invariant
            i <= offered@.len(),
            forall|j: int| 0 <= j < i ==> offered@[j] != code,
        decreases offered@.len() - i,
    {
        if offered[i] == code {
            assert(offered@.contains(code));
            return true;
        }
        i += 1;
    }
    false
}

/// Selects the authentication method for a connection: the first of
/// `server_supported`, which is ordered by the server's preference, that
/// occurs among the codes in `client_offered`. The order and the number of
/// times in which the client lists its codes make no difference.
pub fn select(server_supported: &[AuthMethod], client_offered: &[u8]) -> (selected: Option<
    AuthMethod,
>)
    ensures
        selected == select_spec(server_supported@, client_offered@.to_set()),
{
    let ghost offered = client_offered@.to_set();
    let mut i: usize = 0;
    assert(server_supported@.subrange(0, server_supported@.len() as int) =~= server_supported@);
    while i < server_supported.len()
        invariant
            i <= server_supported@.len(),
            offered == client_offered@.to_set(),
            select_spec(server_supported@, offered) == select_spec(
                server_supported@.subrange(i as int, server_supported@.len() as int),
                offered,
            ),
        decreases server_supported@.len() - i,
    {
        let ghost remaining = server_supported@.subrange(
            i as int,
            server_supported@.len() as int,
        );
        let candidate = server_supported[i];
        assert(remaining[0] == candidate);
        if offers(client_offered, candidate.to_byte()) {
            return Some(candidate);
        }
        assert(remaining.drop_first() =~= server_supported@.subrange(
            i + 1,
            server_supported@.len() as int,
        ));
        i += 1;
    }
    assert(server_supported@.subrange(i as int, server_supported@.len() as int).len() == 0);
    None
}

/// Selection fails exactly when the client offered none of the supported
/// methods. When it succeeds, the selected method stands in the server's
/// list at a place before which no entry was offered, and was itself
/// offered.
pub proof fn lemma_select_first_offered(supported: Seq<AuthMethod>, offered: Set<u8>)
    ensures
        select_spec(supported, offered) is None <==> forall|k: int|
            0 <= k < supported.len() ==> !offered.contains(#[trigger] supported[k].code()),
        select_spec(supported, offered) matches Some(method) ==> exists|i: int|
            {
                &&& 0 <= i < supported.len()
                &&& #[trigger] supported[i] == method
                &&& offered.contains(method.code())
                &&& forall|j: int| 0 <= j < i ==> !offered.contains(#[trigger] supported[j].code())
            },
    decreases supported.len(),
{
    if supported.len() == 0 {
    } else if offered.contains(supported[0].code()) {
        assert(supported[0] == select_spec(supported, offered)->Some_0);
    } else {
        let tail = supported.drop_first();
        lemma_select_first_offered(tail, offered);
        assert(forall|k: int| 0 <= k < tail.len() ==> tail[k] == supported[k + 1]);
        if select_spec(tail, offered) is None {
            assert forall|k: int| 0 <= k < supported.len() implies !offered.contains(
                #[trigger] supported[k].code(),
            ) by {
                if k > 0 {
                    assert(tail[k - 1] == supported[k]);
                }
            }
        } else {
            let method = select_spec(tail, offered)->Some_0;
            let i = choose|i: int|
                {
                    &&& 0 <= i < tail.len()
                    &&& #[trigger] tail[i] == method
                    &&& offered.contains(method.code())
                    &&& forall|j: int| 0 <= j < i ==> !offered.contains(#[trigger] tail[j].code())
                };
            assert(supported[i + 1] == method);
            assert forall|j: int| 0 <= j < i + 1 implies !offered.contains(
                #[trigger] supported[j].code(),
            ) by {
                if j > 0 {
                    assert(tail[j - 1] == supported[j]);
                }
            }
        }
    }
}

} // verus!
