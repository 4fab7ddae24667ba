//! The merge engine: selected files' contents concatenated into one labeled
//! blob.  A file whose fetch fails only because its bytes are not text is
//! skipped; any other fetch error aborts the whole merge.  Fetching itself
//! happens outside this module: its functions fold fetch results, one per
//! selected path, into the final string.

use crate::source::TextSourceError;
use vstd::prelude::*;

verus! {

/// The labeled block for one file.
pub open spec fn spec_block(path: Seq<char>, content: Seq<char>) -> Seq<char> {
    "--- START FILE: "@ + path + " ---\n"@ + content + "\n--- END FILE: "@ + path + " ---\n\n"@
}

/// Wrap one file's content between its start and end labels.
pub fn merge_block(path: &str, content: &str) -> (r: String)
    ensures
        r@ == spec_block(path@, content@),
{
    let mut r = String::from_str("--- START FILE: ");
    r.append(path);
    r.append(" ---\n");
    r.append(content);
    r.append("\n--- END FILE: ");
    r.append(path);
    r.append(" ---\n\n");
    r
}

/// How one fetch result extends the accumulated output: content is wrapped
/// and appended, a non-text file leaves the output unchanged, and any other
/// error aborts with that error.
pub open spec fn spec_merge_step(
    acc: Seq<char>,
    path: Seq<char>,
    fetch: Result<String, TextSourceError>,
) -> Result<Seq<char>, TextSourceError> {
    match fetch {
        Ok(c) => Ok(acc + spec_block(path, c@)),
        Err(TextSourceError::NotTextFile(m)) => Ok(acc),
        Err(e) => Err(e),
    }
}

/// Fold one fetch result into the accumulated output.
pub fn merge_step(merged: String, path: &str, fetch: Result<String, TextSourceError>) -> (r:
    Result<String, TextSourceError>)
    ensures
        ({
            let sp = spec_merge_step(merged@, path@, fetch);
            &&& (r is Ok <==> sp is Ok)
            &&& (r matches Ok(s) ==> (sp matches Ok(v) && s@ == v))
            &&& (r matches Err(e) ==> (sp matches Err(f) && e == f))
        }),
{
    match fetch {
        Ok(c) => {
            let mut out = merged;
            let block = merge_block(path, c.as_str());
            out.append(block.as_str());
            Ok(out)
        },
        Err(e) => match e {
            TextSourceError::NotTextFile(_) => Ok(merged),
            other => Err(other),
        },
    }
}

/// The merge of a list of (path, fetch result) entries on top of `acc`,
/// first entry first.
pub open spec fn spec_merge_from(
    acc: Seq<char>,
    entries: Seq<(String, Result<String, TextSourceError>)>,
) -> Result<Seq<char>, TextSourceError>
    decreases entries.len(),
{
    if entries.len() == 0 {
        Ok(acc)
    } else {
        match spec_merge_step(acc, entries[0].0@, entries[0].1) {
            Ok(acc2) => spec_merge_from(acc2, entries.drop_first()),
            Err(e) => Err(e),
        }
    }
}

/// Merge a list of fetched files, in the order given, into the final blob.
pub fn merge_files(entries: Vec<(String, Result<String, TextSourceError>)>) -> (r: Result<
    String,
    TextSourceError,
>)
    ensures
        ({
            let m = spec_merge_from(Seq::<char>::empty(), entries@);
            &&& (r is Ok <==> m is Ok)
            &&& (r matches Ok(s) ==> (m matches Ok(v) && s@ == v))
            &&& (r matches Err(e) ==> (m matches Err(f) && e == f))
        }),
{
    let mut rest = entries;
    let mut acc = String::new();
    while rest.len() > 0
        invariant
            spec_merge_from(Seq::<char>::empty(), entries@) == spec_merge_from(acc@, rest@),
        decreases rest@.len(),
    {
        let ghost pre = rest@;
        let (path, fetch) = rest.remove(0);
        proof {
            assert(rest@ =~= pre.drop_first());
        }
        match merge_step(acc, path.as_str(), fetch) {
            Ok(next) => {
                acc = next;
            },
            Err(e) => {
                proof {
                    assert(pre[0].0 == path && pre[0].1 == fetch);
                    assert(spec_merge_from(acc@, pre) == Err::<Seq<char>, TextSourceError>(e));
                }
                return Err(e);
            },
        }
    }
    Ok(acc)
}

/// Law: a file whose fetch failed only as non-text contributes nothing: the
/// merge over entries containing it equals the merge with that entry
/// removed.
pub proof fn lemma_not_text_file_skipped(
    acc: Seq<char>,
    entries: Seq<(String, Result<String, TextSourceError>)>,
    i: int,
)
    requires
        0 <= i < entries.len(),
        entries[i].1 matches Err(e) && e matches TextSourceError::NotTextFile(m),
    ensures
        spec_merge_from(acc, entries) == spec_merge_from(acc, entries.remove(i)),
    decreases entries.len(),
{
    if i == 0 {
        assert(entries.remove(0) =~= entries.drop_first());
    } else {
        match spec_merge_step(acc, entries[0].0@, entries[0].1) {
            Ok(acc2) => {
                assert(entries.drop_first()[i - 1] == entries[i]);
                lemma_not_text_file_skipped(acc2, entries.drop_first(), i - 1);
                assert(entries.remove(i).drop_first() =~= entries.drop_first().remove(i - 1));
                assert(entries.remove(i)[0] == entries[0]);
            },
            Err(_) => {
                assert(entries.remove(i)[0] == entries[0]);
            },
        }
    }
}

} // verus!
