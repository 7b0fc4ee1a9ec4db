use vstd::prelude::*;

verus! {

/// The upload directory as the logic sees it: a flat namespace mapping each
/// stored filename to the file's bytes. The filesystem realizes this map;
/// the ingester's write path updates it one whole file per field, and the
/// download path reads it. The lemmas below state what one leaves for the
/// other to find.
pub open spec fn store_after_write(
    store: Map<Seq<char>, Seq<u8>>,
    name: Seq<char>,
    content: Seq<u8>,
) -> Map<Seq<char>, Seq<u8>> {
    store.insert(name, content)
}

/// The bytes a download of `name` streams back, or `None` where no file of
/// that name is stored.
pub open spec fn stored_content(store: Map<Seq<char>, Seq<u8>>, name: Seq<char>) -> Option<
    Seq<u8>,
> {
    if store.contains_key(name) {
        Some(store[name])
    } else {
        None
    }
}

/// The bytes of a file written incrementally: the concatenation of its
/// chunks in arrival order. The ingester holds no chunk beyond the one in
/// flight, so this is what reaches the disk without the whole file ever
/// being in memory.
pub open spec fn concat_chunks(chunks: Seq<Seq<u8>>) -> Seq<u8>
    decreases chunks.len(),
{
    if chunks.len() == 0 {
        Seq::empty()
    } else {
        concat_chunks(chunks.drop_last()) + chunks.last()
    }
}

/// Law: appending one more chunk extends the file's bytes by exactly that
/// chunk — the step the write path performs for every chunk that arrives,
/// so writing chunk after chunk realizes the concatenation.
pub proof fn lemma_concat_chunks_step(chunks: Seq<Seq<u8>>, chunk: Seq<u8>)
    ensures
        concat_chunks(chunks.push(chunk)) == concat_chunks(chunks) + chunk,
{
    assert(chunks.push(chunk).drop_last() =~= chunks);
    assert(chunks.push(chunk).last() == chunk);
}

/// Law: uploading a file and then downloading it by the same stored name
/// yields exactly the uploaded bytes — the concatenation of the chunks
/// that arrived, whatever their number and sizes.
pub proof fn lemma_upload_download_round_trip(
    store: Map<Seq<char>, Seq<u8>>,
    name: Seq<char>,
    chunks: Seq<Seq<u8>>,
)
    ensures
        stored_content(store_after_write(store, name, concat_chunks(chunks)), name) == Some(
            concat_chunks(chunks),
        ),
{
}

/// Law: uploading under the same name twice leaves exactly the second
/// content retrievable — the last writer wins, with no merge of the two
/// and no trace of the first.
pub proof fn lemma_overwrite_last_writer_wins(
    store: Map<Seq<char>, Seq<u8>>,
    name: Seq<char>,
    first: Seq<u8>,
    second: Seq<u8>,
)
    ensures
        store_after_write(store_after_write(store, name, first), name, second)
            == store_after_write(store, name, second),
        stored_content(store_after_write(store_after_write(store, name, first), name, second), name)
            == Some(second),
{
    assert(store.insert(name, first).insert(name, second) =~= store.insert(name, second));
}

/// Law: a write never disturbs a file stored under another name; uploads
/// and downloads of different filenames are independent.
pub proof fn lemma_write_preserves_other_names(
    store: Map<Seq<char>, Seq<u8>>,
    name: Seq<char>,
    content: Seq<u8>,
    other: Seq<char>,
)
    requires
        other != name,
    ensures
        stored_content(store_after_write(store, name, content), other) == stored_content(
            store,
            other,
        ),
{
}

} // verus!
