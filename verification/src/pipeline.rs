//! The character generation and publish pipeline that follows a close.
//!
//! The generator and the content-addressed store are external; the pipeline
//! tracks, per candidate character, which avatar bytes were fetched and
//! which content identifier the store handed back.  Publishing is idempotent
//! per character, and a partially published batch is resumable: the pipeline
//! can always say exactly which characters still need publishing.

use vstd::prelude::*;

use crate::types::ContentId;
use crate::types::content_id_eq;

verus! {

/// A candidate character as the generator produced it; the avatar holds raw
/// bytes once they have been fetched.
pub struct CharacterDraft {
    pub name: String,
    pub symbol: String,
    pub description: String,
    pub avatar: Option<Vec<u8>>,
}

/// A finished character: its avatar replaced by the store's identifier,
/// ready for on-chain registration.
pub struct Character {
    pub name: String,
    pub symbol: String,
    pub description: String,
    pub avatar: ContentId,
}

/// Why a pipeline operation was rejected.
#[derive(Clone, Copy, PartialEq, Eq, Structural, Debug)]
pub enum PublishError {
    /// The index names no character of this batch.
    NoSuchCharacter,
    /// The character's avatar bytes have not been fetched yet.
    AvatarNotDownloaded,
    /// A different content identifier is already recorded for the character.
    ContentIdMismatch,
    /// Some characters of the batch are not yet published.
    BatchIncomplete,
}

/// One batch of candidate characters on its way to registration.
pub struct GenerationPipeline {
    pub drafts: Vec<CharacterDraft>,
    /// Per draft, the content identifier the store returned, once published.
    pub published: Vec<Option<ContentId>>,
}

/// The registration payload for the round that follows a close: the finished
/// character set the chain writer hands to the contract.
pub struct AuctionRegistration {
    pub round_id: u64,
    pub characters: Vec<Character>,
}

/// Mathematical image of a pipeline.
pub struct PipelineView {
    pub drafts: Seq<CharacterDraft>,
    pub published: Seq<Option<ContentId>>,
}

impl View for GenerationPipeline {
    type V = PipelineView;

    open spec fn view(&self) -> PipelineView {
        PipelineView { drafts: self.drafts@, published: self.published@ }
    }
}

impl PipelineView {
    /// One publish slot per draft.
    pub open spec fn wf(self) -> bool {
        self.published.len() == self.drafts.len()
    }

    /// Every character of the batch has been published.
    pub open spec fn complete(self) -> bool {
        forall|i: int| 0 <= i < self.published.len() ==> self.published[i] is Some
    }
}

/// The pipeline state after recording the store's identifier for one
/// character, together with what the recording returns: `Ok(true)` for a
/// new record, `Ok(false)` for an identical repeat (success, no change),
/// and an error for anything else.
pub open spec fn spec_record_publish(p: PipelineView, index: usize, cid: ContentId) -> (
    PipelineView,
    Result<bool, PublishError>,
) {
    if index >= p.drafts.len() {
        (p, Err(PublishError::NoSuchCharacter))
    } else if p.drafts[index as int].avatar is None {
        (p, Err(PublishError::AvatarNotDownloaded))
    } else {
        match p.published[index as int] {
            None => (
                PipelineView {
                    drafts: p.drafts,
                    published: p.published.update(index as int, Some(cid)),
                },
                Ok(true),
            ),
            Some(prior) => if prior@ == cid@ {
                (p, Ok(false))
            } else {
                (p, Err(PublishError::ContentIdMismatch))
            },
        }
    }
}

/// The indices of the batch that still await publishing.
pub open spec fn unpublished_indices(p: PipelineView) -> Set<int> {
    Set::new(|i: int| 0 <= i < p.published.len() && p.published[i] is None)
}

/// Resumability: a newly recorded publish removes exactly its own character
/// from the unpublished set, so a restarted run has exactly the rest left.
pub proof fn lemma_publish_shrinks_remaining(p: PipelineView, index: usize, cid: ContentId)
    requires
        p.wf(),
        spec_record_publish(p, index, cid).1 == Ok::<bool, PublishError>(true),
    ensures
        unpublished_indices(spec_record_publish(p, index, cid).0) == unpublished_indices(
            p,
        ).remove(index as int),
{
    let p1 = spec_record_publish(p, index, cid).0;
    assert(unpublished_indices(p1) =~= unpublished_indices(p).remove(index as int));
}

/// Publish idempotence: recording the same content identifier for the same
/// character a second time succeeds without any state change.
pub proof fn lemma_publish_idempotent(p: PipelineView, index: usize, cid: ContentId)
    requires
        p.wf(),
        spec_record_publish(p, index, cid).1 is Ok,
    ensures
        ({
            let (p1, r1) = spec_record_publish(p, index, cid);
            let (p2, r2) = spec_record_publish(p1, index, cid);
            &&& p2 == p1
            &&& r2 == Ok::<bool, PublishError>(false)
        }),
{
    let (p1, r1) = spec_record_publish(p, index, cid);
    assert(p1.published[index as int] is Some);
}

/// Start a pipeline over the drafts the generator produced: nothing is
/// published yet.
pub fn create_characters(drafts: Vec<CharacterDraft>) -> (p: GenerationPipeline)
    ensures
        p@.wf(),
        p.drafts == drafts,
        forall|i: int| 0 <= i < p.published@.len() ==> p.published@[i] is None,
{
    let n: usize = drafts.len();
    let mut published: Vec<Option<ContentId>> = Vec::new();
    let mut i: usize = 0;
    while i < n
        invariant
            0 <= i <= n,
            published@.len() == i,
            forall|k: int| 0 <= k < i ==> published@[k] is None,
        decreases n - i,
    {
        published.push(None);
        i += 1;
    }
    GenerationPipeline { drafts, published }
}

/// Record the avatar bytes fetched for the character at `index`; the fetch
/// itself happens outside.  Everything else about the batch is untouched.
pub fn download_character_avatar(
    p: &mut GenerationPipeline,
    index: usize,
    bytes: Vec<u8>,
) -> (r: Result<(), PublishError>)
    requires
        old(p)@.wf(),
    ensures
        final(p)@.wf(),
        index >= old(p).drafts@.len() ==> r == Err::<(), PublishError>(
            PublishError::NoSuchCharacter,
        ) && *final(p) == *old(p),
        index < old(p).drafts@.len() ==> ({
            &&& r == Ok::<(), PublishError>(())
            &&& final(p).published == old(p).published
            &&& final(p).drafts@.len() == old(p).drafts@.len()
            &&& final(p).drafts@[index as int].name == old(p).drafts@[index as int].name
            &&& final(p).drafts@[index as int].symbol == old(p).drafts@[index as int].symbol
            &&& final(p).drafts@[index as int].description == old(
                p,
            ).drafts@[index as int].description
            &&& final(p).drafts@[index as int].avatar == Some(bytes)
            &&& forall|k: int|
                0 <= k < old(p).drafts@.len() && k != index ==> final(p).drafts@[k] == old(
                    p,
                ).drafts@[k]
        }),
{
    if index >= p.drafts.len() {
        return Err(PublishError::NoSuchCharacter);
    }
    p.drafts[index].avatar = Some(bytes);
    Ok(())
}

/// Record the content identifier the store returned for the character at
/// `index`.  Publishing is idempotent: an identical repeat is success.
pub fn upload_character_avatar_to_ipfs(
    p: &mut GenerationPipeline,
    index: usize,
    cid: ContentId,
) -> (r: Result<bool, PublishError>)
    requires
        old(p)@.wf(),
    ensures
        final(p)@.wf(),
        (final(p)@, r) == spec_record_publish(old(p)@, index, cid),
{
    if index >= p.drafts.len() {
        return Err(PublishError::NoSuchCharacter);
    }
    if p.drafts[index].avatar.is_none() {
        return Err(PublishError::AvatarNotDownloaded);
    }
    match &p.published[index] {
        None => {},
        Some(prior) => {
            if content_id_eq(prior, &cid) {
                return Ok(false);
            }
            return Err(PublishError::ContentIdMismatch);
        },
    }
    p.published.set(index, Some(cid));
    Ok(true)
}

/// The indices of the characters still unpublished, in increasing order:
/// exactly what a resumed run must still publish.
pub fn remaining_unpublished(p: &GenerationPipeline) -> (idxs: Vec<usize>)
    ensures
        forall|j: int|
            0 <= j < idxs@.len() ==> idxs@[j] < p.published@.len() && p.published@[idxs@[j] as int]
                is None,
        forall|i: int|
            0 <= i < p.published@.len() && p.published@[i] is None ==> idxs@.contains(i as usize),
        forall|j1: int, j2: int| 0 <= j1 < j2 < idxs@.len() ==> idxs@[j1] < idxs@[j2],
{
    let n: usize = p.published.len();
    let mut idxs: Vec<usize> = Vec::new();
    let mut i: usize = 0;
    while i < n
        invariant
            0 <= i <= n,
            n == p.published@.len(),
            forall|j: int|
                0 <= j < idxs@.len() ==> idxs@[j] < i && p.published@[idxs@[j] as int] is None,
            forall|k: int| 0 <= k < i && p.published@[k] is None ==> idxs@.contains(k as usize),
            forall|j1: int, j2: int| 0 <= j1 < j2 < idxs@.len() ==> idxs@[j1] < idxs@[j2],
        decreases n - i,
    {
        if p.published[i].is_none() {
            let ghost prev = idxs@;
            idxs.push(i);
            proof {
                assert forall|k: int|
                    0 <= k < i + 1 && p.published@[k] is None implies idxs@.contains(
                    k as usize,
                ) by {
                    if k < i {
                        let w = choose|w: int| 0 <= w < prev.len() && prev[w] == k as usize;
                        assert(idxs@[w] == k as usize);
                    } else {
                        assert(idxs@[prev.len() as int] == i);
                    }
                }
            }
        }
        i += 1;
    }
    idxs
}

/// Whether every character of the batch has been published.
pub fn is_generation_complete(p: &GenerationPipeline) -> (r: bool)
    ensures
        r == p@.complete(),
{
    let n: usize = p.published.len();
    let mut i: usize = 0;
    while i < n
        invariant
            0 <= i <= n,
            n == p.published@.len(),
            forall|k: int| 0 <= k < i ==> p.published@[k] is Some,
        decreases n - i,
    {
        if p.published[i].is_none() {
            return false;
        }
        i += 1;
    }
    true
}

/// Assemble the registration for the next round from a fully published
/// batch: each finished character carries its draft's text fields and the
/// store's identifier for its avatar.  Fails on an incomplete batch.
pub fn create_auction(round_id: u64, p: &GenerationPipeline) -> (r: Result<
    AuctionRegistration,
    PublishError,
>)
    requires
        p@.wf(),
    ensures
        p@.complete() ==> ({
            &&& r is Ok
            &&& r->Ok_0.round_id == round_id
            &&& r->Ok_0.characters@.len() == p.drafts@.len()
            &&& forall|i: int|
                0 <= i < p.drafts@.len() ==> {
                    &&& r->Ok_0.characters@[i].name == p.drafts@[i].name
                    &&& r->Ok_0.characters@[i].symbol == p.drafts@[i].symbol
                    &&& r->Ok_0.characters@[i].description == p.drafts@[i].description
                    &&& r->Ok_0.characters@[i].avatar@ == p.published@[i]->0@
                }
        }),
        !p@.complete() ==> r == Err::<AuctionRegistration, PublishError>(
            PublishError::BatchIncomplete,
        ),
{
    if !is_generation_complete(p) {
        return Err(PublishError::BatchIncomplete);
    }
    let n: usize = p.drafts.len();
    let mut characters: Vec<Character> = Vec::new();
    let mut i: usize = 0;
    while i < n
        invariant
            0 <= i <= n,
            p@.wf(),
            p@.complete(),
            n == p.drafts@.len(),
            characters@.len() == i,
            forall|k: int|
                0 <= k < i ==> {
                    &&& characters@[k].name == p.drafts@[k].name
                    &&& characters@[k].symbol == p.drafts@[k].symbol
                    &&& characters@[k].description == p.drafts@[k].description
                    &&& characters@[k].avatar@ == p.published@[k]->0@
                },
        decreases n - i,
    {
        let cid: ContentId = match &p.published[i] {
            Some(c) => duplicate_content_id(c),
            None => {
                proof {
                    assert(false);
                }
                ContentId { bytes: Vec::new() }
            },
        };
        let draft = &p.drafts[i];
        characters.push(
            Character {
                name: draft.name.clone(),
                symbol: draft.symbol.clone(),
                description: draft.description.clone(),
                avatar: cid,
            },
        );
        i += 1;
    }
    Ok(AuctionRegistration { round_id, characters })
}

/// A fresh content identifier with the same bytes.
fn duplicate_content_id(c: &ContentId) -> (d: ContentId)
    ensures
        d@ == c@,
{
    let n: usize = c.bytes.len();
    let mut bytes: Vec<u8> = Vec::new();
    let mut i: usize = 0;
    while i < n
        invariant
            0 <= i <= n,
            n == c.bytes@.len(),
            bytes@.len() == i,
            forall|k: int| 0 <= k < i ==> bytes@[k] == c.bytes@[k],
        decreases n - i,
    {
        bytes.push(c.bytes[i]);
        i += 1;
    }
    proof {
        assert(bytes@ =~= c.bytes@);
    }
    ContentId { bytes }
}

} // verus!
