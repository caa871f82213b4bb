//! The decisions of file and trash sync, and the cursors that remember how
//! far each sync got.
use vstd::prelude::*;
use crate::crypto::types::Key256;
use crate::sync::decrypt::{
    all_decidable, batch_decrypt_files_checked, decrypted_records, lists_decrypted, DecryptedFile,
    EncryptedFileRecord,
};
use crate::sync::error::SyncError;

verus! {

/// The cursor to start from: the stored one, or 0 when there is none or it
/// could not be read.
pub fn cursor_or_zero(read: Result<Option<i64>, SyncError>) -> (since: i64)
    ensures
        since == (match read {
            Ok(Some(v)) => v,
            _ => 0,
        }),
{
    match read {
        Ok(Some(v)) => v,
        _ => 0,
    }
}

/// The key under which the file cursor of a collection is stored.
pub fn collection_cursor_key(collection_id: &str) -> (key: String)
    ensures
        key@ == "collection:"@ + collection_id@ + ":since"@,
{
    let mut key = String::from_str("collection:");
    key.append(collection_id);
    key.append(":since");
    key
}

/// A page of file changes in a collection since a cursor.
pub struct SyncFilesResponse {
    pub updated_files: Vec<EncryptedFileRecord>,
    pub deleted_file_ids: Vec<i64>,
    pub latest_updated_at: i64,
    pub has_more: bool,
}

/// What to do with a page of file changes: store `decrypted`, archive
/// `archived_ids`, write `cursor`, and fetch again from it if `has_more`. An
/// empty page (`done`) ends the collection's sync.
pub struct FilesPagePlan<'a> {
    pub done: bool,
    pub decrypted: Vec<DecryptedFile<'a>>,
    pub archived_ids: Vec<i64>,
    pub cursor: i64,
    pub has_more: bool,
}

/// The key that file records are decrypted with during file sync: 32 zero
/// bytes.
pub open spec fn file_sync_key() -> Seq<u8> {
    Seq::new(32, |i: int| 0u8)
}

/// Plans the processing of a page of file changes. The updated records are
/// decrypted with `file_sync_key`, skipping those that fail. `None` when a
/// record is among the inputs on which decryption cannot proceed.
pub fn plan_files_page<'a>(page: &'a SyncFilesResponse) -> (plan: Option<FilesPagePlan<'a>>)
    ensures
        plan is None <==> (!(page.updated_files@.len() == 0 && page.deleted_file_ids@.len() == 0) && !all_decidable(
            page.updated_files@,
            file_sync_key(),
        )),
        plan matches Some(p) ==> {
            &&& p.done <==> (page.updated_files@.len() == 0 && page.deleted_file_ids@.len() == 0)
            &&& !p.done ==> lists_decrypted(p.decrypted@, decrypted_records(page.updated_files@, file_sync_key()))
            &&& !p.done ==> p.archived_ids@ == page.deleted_file_ids@
            &&& p.cursor == page.latest_updated_at
            &&& p.has_more == page.has_more
        },
{
    if page.updated_files.len() == 0 && page.deleted_file_ids.len() == 0 {
        return Some(FilesPagePlan {
            done: true,
            decrypted: Vec::new(),
            archived_ids: Vec::new(),
            cursor: page.latest_updated_at,
            has_more: page.has_more,
        });
    }
    let zero_key = Key256::new([0u8; 32]);
    proof {
        assert(zero_key@ =~= file_sync_key());
    }
    let decrypted = match batch_decrypt_files_checked(page.updated_files.as_slice(), &zero_key) {
        Some(Ok(v)) => v,
        Some(Err(_)) => return None,
        None => return None,
    };
    let mut archived_ids: Vec<i64> = Vec::new();
    let mut i: usize = 0;
    while i < page.deleted_file_ids.len()
        invariant
            i <= page.deleted_file_ids@.len(),
            archived_ids@ == page.deleted_file_ids@.take(i as int),
        decreases page.deleted_file_ids@.len() - i,
    {
        archived_ids.push(page.deleted_file_ids[i]);
        i = i + 1;
        assert(archived_ids@ =~= page.deleted_file_ids@.take(i as int));
    }
    assert(page.deleted_file_ids@.take(i as int) =~= page.deleted_file_ids@);
    Some(FilesPagePlan {
        done: false,
        decrypted,
        archived_ids,
        cursor: page.latest_updated_at,
        has_more: page.has_more,
    })
}

/// A file moved to the trash.
#[derive(Debug, Clone, Copy)]
pub struct DeletedFile {
    pub file_id: i64,
    pub updation_time: i64,
}

/// A page of trash changes since a cursor.
pub struct SyncTrashResponse {
    pub deleted_files: Vec<DeletedFile>,
    pub latest_updated_at: i64,
    pub has_more: bool,
}

/// What to do with a page of trash changes: archive `file_ids`, write
/// `cursor`, and fetch again from `next_since` if `has_more`. An empty page
/// (`done`) ends the trash sync.
pub struct TrashPagePlan {
    pub done: bool,
    pub file_ids: Vec<i64>,
    pub next_since: i64,
    pub cursor: i64,
    pub has_more: bool,
}

/// Plans the processing of a page of trash changes: archive every file of the
/// page; the next cursor is the change time of the page's last file.
pub fn plan_trash_page(page: &SyncTrashResponse, since: i64) -> (plan: TrashPagePlan)
    ensures
        plan.done <==> page.deleted_files@.len() == 0,
        plan.file_ids@.len() == page.deleted_files@.len(),
        forall|i: int| 0 <= i < plan.file_ids@.len() ==> plan.file_ids@[i] == (#[trigger] page.deleted_files@[i]).file_id,
        plan.next_since == (if page.deleted_files@.len() == 0 { since } else { page.deleted_files@.last().updation_time }),
        plan.cursor == page.latest_updated_at,
        plan.has_more == page.has_more,
{
    let mut file_ids: Vec<i64> = Vec::new();
    let mut next_since = since;
    let mut i: usize = 0;
    while i < page.deleted_files.len()
        invariant
            i <= page.deleted_files@.len(),
            file_ids@.len() == i,
            forall|j: int| 0 <= j < i ==> file_ids@[j] == (#[trigger] page.deleted_files@[j]).file_id,
            next_since == (if i == 0 { since } else { page.deleted_files@[i - 1].updation_time }),
        decreases page.deleted_files@.len() - i,
    {
        file_ids.push(page.deleted_files[i].file_id);
        next_since = page.deleted_files[i].updation_time;
        i = i + 1;
    }
    TrashPagePlan {
        done: page.deleted_files.len() == 0,
        file_ids,
        next_since,
        cursor: page.latest_updated_at,
        has_more: page.has_more,
    }
}

} // verus!
