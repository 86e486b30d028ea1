use vstd::prelude::*;
use vstd::string::*;

use crate::error::EduNewsError;

verus! {

/// A 32-byte account id on any of the ledgers.
pub type AccountId = [u8; 32];

/// What `ensure_container` settles on for a publisher.
#[derive(Clone, Copy, Debug, PartialEq, Eq, Structural)]
pub enum ContainerChoice {
    /// The publisher already owns this container.
    Existing(u32),
    /// No container is owned by the publisher: create one with this id,
    /// the ledger's next free container id.
    Create(u32),
}

impl ContainerChoice {
    pub open spec fn id(self) -> u32 {
        match self {
            ContainerChoice::Existing(id) => id,
            ContainerChoice::Create(id) => id,
        }
    }

    /// The container id that the publisher's units go into.
    pub fn container_id(&self) -> (r: u32)
        ensures
            r == self.id(),
    {
        match self {
            ContainerChoice::Existing(id) => *id,
            ContainerChoice::Create(id) => *id,
        }
    }
}

/// The recorded owner of a container is `publisher`.
pub open spec fn owned_by(owner: Option<AccountId>, publisher: AccountId) -> bool {
    owner is Some && owner->0@ == publisher@
}

/// The first container from index `i` on whose owner is `publisher`, or a
/// new container at the next free id when there is none.
pub open spec fn scan_from(owners: Seq<Option<AccountId>>, publisher: AccountId, i: int) -> ContainerChoice
    decreases owners.len() - i,
{
    if i >= owners.len() {
        ContainerChoice::Create(owners.len() as u32)
    } else if owned_by(owners[i], publisher) {
        ContainerChoice::Existing(i as u32)
    } else {
        scan_from(owners, publisher, i + 1)
    }
}

/// The choice made for `publisher` when `owners[i]` is the recorded owner of
/// container `i`, for every container below the next free id `owners.len()`.
pub open spec fn chosen_container(owners: Seq<Option<AccountId>>, publisher: AccountId) -> ContainerChoice {
    scan_from(owners, publisher, 0)
}

/// The owners recorded on the issuance ledger once `choice` has been carried out.
pub open spec fn owners_after(
    owners: Seq<Option<AccountId>>,
    publisher: AccountId,
    choice: ContainerChoice,
) -> Seq<Option<AccountId>> {
    match choice {
        ContainerChoice::Existing(_) => owners,
        ContainerChoice::Create(_) => owners.push(Some(publisher)),
    }
}

fn same_account(a: &AccountId, b: &AccountId) -> (r: bool)
    ensures
        r == (a@ == b@),
{
    let mut i: usize = 0;
    while i < 32
        invariant
            0 <= i <= 32,
            forall|k: int| 0 <= k < i ==> a@[k] == b@[k],
        decreases 32 - i,
    {
        if a[i] != b[i] {
            return false;
        }
        i = i + 1;
    }
    assert(a@ =~= b@);
    true
}

/// Chooses the container for a publisher's units. `owners[i]` is the owner
/// recorded for container `i`, read for every id below the next free one
/// (`None` where the ledger holds no details). The first container owned by
/// the publisher is taken; without one, a new container is made at the next
/// free id.
pub fn select_container(owners: &Vec<Option<AccountId>>, publisher: &AccountId) -> (r: ContainerChoice)
    requires
        owners@.len() <= u32::MAX,
    ensures
        r == chosen_container(owners@, *publisher),
        r matches ContainerChoice::Existing(id) ==> id < owners@.len() && owned_by(
            owners@[id as int],
            *publisher,
        ) && forall|j: int| 0 <= j < id ==> !owned_by(#[trigger] owners@[j], *publisher),
        r matches ContainerChoice::Create(id) ==> id == owners@.len() && forall|j: int|
            0 <= j < owners@.len() ==> !owned_by(#[trigger] owners@[j], *publisher),
{
    let mut i: usize = 0;
    while i < owners.len()
        invariant
            0 <= i <= owners@.len() <= u32::MAX,
            chosen_container(owners@, *publisher) == scan_from(owners@, *publisher, i as int),
            forall|j: int| 0 <= j < i ==> !owned_by(#[trigger] owners@[j], *publisher),
        decreases owners@.len() - i,
    {
        let found = match &owners[i] {
            Some(owner) => same_account(owner, publisher),
            None => false,
        };
        if found {
            return ContainerChoice::Existing(i as u32);
        }
        i = i + 1;
    }
    ContainerChoice::Create(owners.len() as u32)
}

proof fn lemma_scan_finds_new_container(owners: Seq<Option<AccountId>>, publisher: AccountId, i: int)
    requires
        0 <= i <= owners.len() < u32::MAX,
        scan_from(owners, publisher, i) == ContainerChoice::Create(owners.len() as u32),
    ensures
        scan_from(owners.push(Some(publisher)), publisher, i) == ContainerChoice::Existing(
            owners.len() as u32,
        ),
    decreases owners.len() - i,
{
    let grown = owners.push(Some(publisher));
    if i < owners.len() {
        assert(grown[i] == owners[i]);
        lemma_scan_finds_new_container(owners, publisher, i + 1);
    } else {
        assert(grown[i] == Some(publisher));
    }
}

/// Choosing a container is idempotent: once the first choice has been
/// carried out on the ledger, choosing again for the same publisher yields
/// the same container and creates nothing.
pub proof fn lemma_ensure_container_idempotent(owners: Seq<Option<AccountId>>, publisher: AccountId)
    requires
        owners.len() < u32::MAX,
    ensures
        ({
            let first = chosen_container(owners, publisher);
            let second = chosen_container(owners_after(owners, publisher, first), publisher);
            &&& second == ContainerChoice::Existing(first.id())
            &&& owners_after(owners_after(owners, publisher, first), publisher, second)
                == owners_after(owners, publisher, first)
        }),
{
    let first = chosen_container(owners, publisher);
    lemma_scan_bounds(owners, publisher, 0);
    if first is Create {
        lemma_scan_finds_new_container(owners, publisher, 0);
    }
}

proof fn lemma_scan_bounds(owners: Seq<Option<AccountId>>, publisher: AccountId, i: int)
    requires
        0 <= i <= owners.len() < u32::MAX,
    ensures
        scan_from(owners, publisher, i) matches ContainerChoice::Existing(id) ==> i <= id
            < owners.len() && owned_by(owners[id as int], publisher),
        scan_from(owners, publisher, i) matches ContainerChoice::Create(id) ==> id == owners.len(),
    decreases owners.len() - i,
{
    if i < owners.len() && !owned_by(owners[i], publisher) {
        lemma_scan_bounds(owners, publisher, i + 1);
    }
}

/// The purpose label of a publisher's container: `news`.
pub fn container_label() -> (r: Vec<u8>)
    ensures
        r@ == seq![110u8, 101u8, 119u8, 115u8],
{
    vec![110u8, 101u8, 119u8, 115u8]
}

/// The unit id assigned to the next mint into a container whose item count is `count`.
pub open spec fn unit_id_for(count: u32) -> u32 {
    count
}

/// The unit id of the next mint into a container: the container's current
/// item count, as read from the ledger (`None` when the ledger holds no such
/// container, which is `CollectionNotFound`).
pub fn next_unit_id(collection_id: u32, item_count: Option<u32>) -> (r: Result<u32, EduNewsError>)
    ensures
        item_count matches Some(c) ==> r == Ok::<u32, EduNewsError>(unit_id_for(c)),
        item_count is None ==> (r matches Err(EduNewsError::CollectionNotFound { collection_id: c })
            && c == collection_id),
{
    match item_count {
        Some(c) => Ok(c),
        None => Err(EduNewsError::CollectionNotFound { collection_id }),
    }
}

/// Unit ids never repeat within a container: when each mint raises the
/// container's item count by one, as the issuance ledger does, the ids that
/// `next_unit_id` hands out to successive mints strictly increase.
pub proof fn lemma_unit_ids_increase(counts: Seq<u32>, i: int, j: int)
    requires
        forall|k: int| 0 <= k < counts.len() - 1 ==> #[trigger] counts[k + 1] == counts[k] + 1,
        0 <= i < j < counts.len(),
    ensures
        unit_id_for(counts[i]) < unit_id_for(counts[j]),
        unit_id_for(counts[j]) == unit_id_for(counts[i]) + (j - i),
    decreases j - i,
{
    assert(counts[j - 1 + 1] == counts[j - 1] + 1);
    if i < j - 1 {
        lemma_unit_ids_increase(counts, i, j - 1);
    }
}

/// The metadata attached to a minted unit:
/// `{"title":"<title>","content_hash":"<content_hash>"}`.
pub fn unit_metadata(title: &str, content_hash: &str) -> (r: String)
    ensures
        r@ == "{\"title\":\""@ + title@ + "\",\"content_hash\":\""@ + content_hash@ + "\"}"@,
{
    let r = "{\"title\":\"".to_owned().concat(title).concat("\",\"content_hash\":\"").concat(
        content_hash,
    ).concat("\"}");
    r
}

} // verus!
