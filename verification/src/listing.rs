use vstd::prelude::*;

verus! {

/// One entry of the upload directory as the filesystem reports it: its
/// name, and whether it is a regular file. Entries whose names are not
/// valid strings are skipped before this point and never reach the
/// enumerator.
pub struct DirEntryInfo {
    /// The entry's filename.
    pub name: String,
    /// Whether the entry is a regular file rather than a subdirectory,
    /// symlink or device.
    pub is_regular_file: bool,
}

/// The names of the regular files among the entries, in enumeration order;
/// subdirectories and other non-regular entries never appear.
pub open spec fn regular_names(entries: Seq<DirEntryInfo>) -> Seq<Seq<char>>
    decreases entries.len(),
{
    if entries.len() == 0 {
        Seq::empty()
    } else {
        let rest = regular_names(entries.drop_last());
        if entries.last().is_regular_file {
            rest.push(entries.last().name@)
        } else {
            rest
        }
    }
}

/// Law: only regular files are ever listed. Every listed name is the name
/// of an entry that is a regular file, so a subdirectory, symlink or
/// device never appears in the listing.
pub proof fn lemma_only_regular_files_listed(entries: Seq<DirEntryInfo>, i: int)
    requires
        0 <= i < regular_names(entries).len(),
    ensures
        exists|j: int|
            0 <= j < entries.len() && entries[j].is_regular_file && entries[j].name@
                == regular_names(entries)[i],
    decreases entries.len(),
{
    let prefix = entries.drop_last();
    let rest = regular_names(prefix);
    if entries.last().is_regular_file && i == rest.len() {
        let j = entries.len() - 1;
        assert(0 <= j < entries.len() && entries[j].is_regular_file && entries[j].name@
            == regular_names(entries)[i]);
    } else {
        lemma_only_regular_files_listed(prefix, i);
        let j = choose|j: int|
            0 <= j < prefix.len() && prefix[j].is_regular_file && prefix[j].name@ == rest[i];
        assert(0 <= j < entries.len() && entries[j].is_regular_file && entries[j].name@
            == regular_names(entries)[i]);
    }
}

/// The directory enumerator: keeps exactly the regular files among the
/// entries, in enumeration order, and drops everything else.
pub fn list_regular_files(entries: &Vec<DirEntryInfo>) -> (files: Vec<String>)
    ensures
        files.deep_view() == regular_names(entries@),
{
    let mut files: Vec<String> = Vec::new();
    let mut i: usize = 0;
    while i < entries.len()
        invariant
            i <= entries.len(),
            files.deep_view() == regular_names(entries@.take(i as int)),
        decreases entries.len() - i,
    {
        proof {
            assert(entries@.take(i + 1 as int).drop_last() =~= entries@.take(i as int));
            assert(entries@.take(i + 1 as int).last() == entries@[i as int]);
        }
        if entries[i].is_regular_file {
            files.push(entries[i].name.clone());
            proof {
                assert(files.deep_view() =~= regular_names(entries@.take(i + 1 as int)));
            }
        }
        i = i + 1;
    }
    proof {
        assert(entries@.take(entries@.len() as int) =~= entries@);
    }
    files
}

/// What the URL encoder makes of a filename when it is placed in a link.
/// The encoding (every byte of the name percent-encoded except ASCII
/// alphanumerics and `-`, `_`, `.`, `~`) is not restated here; it depends
/// on the name alone.
pub uninterp spec fn url_encoded_of(name: Seq<char>) -> Seq<char>;

/// Relies on `urlencoding::encode`: percent-encodes every byte except
/// ASCII alphanumerics and `-`, `_`, `.`, `~`, so the result consists of
/// those characters and `%` alone, and depends on the input alone.
#[verifier::external_body]
fn url_encode(name: &str) -> (encoded: String)
    ensures
        encoded@ == url_encoded_of(name@),
        forall|i: int|
            0 <= i < encoded@.len() ==> (('0' <= encoded@[i] && encoded@[i] <= '9') || ('A'
                <= encoded@[i] && encoded@[i] <= 'Z') || ('a' <= encoded@[i] && encoded@[i]
                <= 'z') || encoded@[i] == '-' || encoded@[i] == '_' || encoded@[i] == '.'
                || encoded@[i] == '~' || encoded@[i] == '%'),
{
    urlencoding::encode(name).into_owned()
}

/// The opening of the download page, up to where the list items begin.
pub open spec fn listing_header() -> Seq<char> {
    "<!doctype html>\n<html>\n<head><title>Download Files</title></head>\n<body>\n<h1>Download Files</h1>\n<ul>"@
}

/// The closing of the download page, after the last list item.
pub open spec fn listing_footer() -> Seq<char> {
    "</ul>\n</body>\n</html>"@
}

/// One list item of the download page: a link whose target carries the
/// URL-encoded filename and whose text shows the name as it is.
pub open spec fn listing_item(name: Seq<char>) -> Seq<char> {
    "<li><a href=\"/download/file/"@ + url_encoded_of(name) + "\">"@ + name + "</a></li>"@
}

/// The list items of the download page, one per file, in order.
pub open spec fn listing_items(names: Seq<Seq<char>>) -> Seq<char>
    decreases names.len(),
{
    if names.len() == 0 {
        Seq::empty()
    } else {
        listing_items(names.drop_last()) + listing_item(names.last())
    }
}

/// The whole download page for the given files.
pub open spec fn download_page_html(names: Seq<Seq<char>>) -> Seq<char> {
    listing_header() + listing_items(names) + listing_footer()
}

/// Renders the download page for the given files: one link per file, each
/// href carrying the URL-encoded filename, framed by the page's header and
/// footer.
pub fn render_download_page(files: &Vec<String>) -> (page: String)
    ensures
        page@ == download_page_html(files.deep_view()),
{
    let ghost names: Seq<Seq<char>> = files.deep_view();
    let mut page = String::from_str("<!doctype html>\n<html>\n<head><title>Download Files</title></head>\n<body>\n<h1>Download Files</h1>\n<ul>");
    let mut i: usize = 0;
    while i < files.len()
        invariant
            i <= files.len(),
            names == files.deep_view(),
            names.len() == files.len(),
            page@ == listing_header() + listing_items(names.take(i as int)),
        decreases files.len() - i,
    {
        proof {
            assert(names[i as int] == files[i as int]@);
        }
        page.append("<li><a href=\"/download/file/");
        let encoded = url_encode(files[i].as_str());
        page.append(encoded.as_str());
        page.append("\">");
        page.append(files[i].as_str());
        page.append("</a></li>");
        proof {
            assert(names.take(i + 1 as int).drop_last() =~= names.take(i as int));
            assert(names.take(i + 1 as int).last() == names[i as int]);
            assert(page@ =~= listing_header() + listing_items(names.take(i + 1 as int)));
        }
        i = i + 1;
    }
    page.append("</ul>\n</body>\n</html>");
    proof {
        assert(names.take(names.len() as int) =~= names);
        assert(page@ =~= download_page_html(files.deep_view()));
    }
    page
}

/// The listing endpoint's work once the directory's entries are in hand:
/// keep the regular files and render the download page for them.
pub fn downloads_page(entries: &Vec<DirEntryInfo>) -> (page: String)
    ensures
        page@ == download_page_html(regular_names(entries@)),
{
    let files = list_regular_files(entries);
    render_download_page(&files)
}

} // verus!
