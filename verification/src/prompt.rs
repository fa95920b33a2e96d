//! Assembly of the prompt text sent with a streaming call: the user's
//! message, optionally preceded by the attached documents, each one
//! labelled, size-capped, and closed off before the question.

use vstd::prelude::*;

verus! {

/// The most characters of one document that are inlined into a prompt.
/// The cap is counted in characters, not bytes: a byte-positioned cut
/// could fall inside a multi-byte character, and this library's functions
/// do not panic.
pub const CONTEXT_CHAR_LIMIT: usize = 50000;

/// A document's text as inlined: capped at the context limit — its first
/// `CONTEXT_CHAR_LIMIT` characters — with the truncation mark when the cap
/// cut it.
pub open spec fn truncated_text(c: Seq<char>) -> Seq<char> {
    if c.len() > CONTEXT_CHAR_LIMIT as int {
        c.take(CONTEXT_CHAR_LIMIT as int) + "...\n[truncated]"@
    } else {
        c
    }
}

/// One document block: its name line, then its text or the read error.
pub open spec fn doc_block_text(d: (String, Result<String, String>)) -> Seq<char> {
    match d.1 {
        Ok(c) => "--- "@ + d.0@ + " ---\n"@ + truncated_text(c@) + "\n\n"@,
        Err(e) => "--- "@ + d.0@ + " ---\n"@ + "[Error reading: "@ + e@ + "]\n\n"@,
    }
}

/// All document blocks, in the order given.
pub open spec fn context_blocks(docs: Seq<(String, Result<String, String>)>) -> Seq<char>
    decreases docs.len(),
{
    if docs.len() == 0 {
        Seq::empty()
    } else {
        context_blocks(docs.drop_last()) + doc_block_text(docs.last())
    }
}

/// The full prompt: the bare message when no documents are attached, else
/// the context header, the blocks, and the question marker before the
/// message.
pub open spec fn built_prompt(
    message: Seq<char>,
    docs: Seq<(String, Result<String, String>)>,
) -> Seq<char> {
    if docs.len() == 0 {
        message
    } else {
        "Here are the documents for context:\n\n"@ + context_blocks(docs)
            + "---\n\nUser question: "@ + message
    }
}

fn append_doc_block(d: &(String, Result<String, String>), out: &mut String)
    ensures
        final(out)@ == old(out)@ + doc_block_text(*d),
{
    out.append("--- ");
    out.append(d.0.as_str());
    out.append(" ---\n");
    let ghost base = out@;
    match &d.1 {
        Ok(c) => {
            let n = c.as_str().unicode_len();
            if n > CONTEXT_CHAR_LIMIT {
                let head = c.as_str().substring_char(0, CONTEXT_CHAR_LIMIT);
                out.append(head);
                out.append("...\n[truncated]");
                proof {
                    assert(head@ =~= c@.take(CONTEXT_CHAR_LIMIT as int));
                    assert(truncated_text(c@) == c@.take(CONTEXT_CHAR_LIMIT as int)
                        + "...\n[truncated]"@);
                    assert(out@ =~= base + truncated_text(c@));
                }
            } else {
                out.append(c.as_str());
                proof {
                    assert(truncated_text(c@) == c@);
                    assert(out@ =~= base + truncated_text(c@));
                }
            }
            out.append("\n\n");
            proof {
                assert(d.1 matches Ok(cc) && cc@ == c@);
                assert(out@ =~= old(out)@ + ("--- "@ + d.0@ + " ---\n"@ + truncated_text(c@)
                    + "\n\n"@));
                assert(doc_block_text(*d) == "--- "@ + d.0@ + " ---\n"@ + truncated_text(c@)
                    + "\n\n"@);
                assert(out@ == old(out)@ + doc_block_text(*d));
            }
        },
        Err(e) => {
            out.append("[Error reading: ");
            out.append(e.as_str());
            out.append("]\n\n");
            proof {
                assert(d.1 matches Err(ee) && ee@ == e@);
                assert(out@ =~= old(out)@ + ("--- "@ + d.0@ + " ---\n"@ + "[Error reading: "@
                    + e@ + "]\n\n"@));
                assert(doc_block_text(*d) == "--- "@ + d.0@ + " ---\n"@ + "[Error reading: "@
                    + e@ + "]\n\n"@);
                assert(out@ == old(out)@ + doc_block_text(*d));
            }
        },
    }
}

/// Build the prompt for a message and its attached documents — each one a
/// display name and the text read from it, or the error that reading gave.
/// Each document is capped at `CONTEXT_CHAR_LIMIT` characters.
pub fn build_prompt(message: &str, docs: &Vec<(String, Result<String, String>)>) -> (r: String)
    ensures
        r@ == built_prompt(message@, docs@),
{
    if docs.len() == 0 {
        return String::from_str(message);
    }
    let mut r = String::from_str("Here are the documents for context:\n\n");
    let n = docs.len();
    let mut i: usize = 0;
    while i < n
        invariant
            0 < n == docs@.len(),
            i <= n,
            r@ == "Here are the documents for context:\n\n"@ + context_blocks(
                docs@.take(i as int),
            ),
        decreases n - i,
    {
        append_doc_block(&docs[i], &mut r);
        proof {
            assert(docs@.take(i + 1).drop_last() =~= docs@.take(i as int));
            assert(docs@.take(i + 1).last() == docs@[i as int]);
        }
        i += 1;
    }
    r.append("---\n\nUser question: ");
    r.append(message);
    proof {
        assert(docs@.take(n as int) =~= docs@);
        assert(r@ =~= built_prompt(message@, docs@));
    }
    r
}

} // verus!
