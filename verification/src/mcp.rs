//! The file-tools responder: a single-threaded JSON-RPC answerer that
//! exposes the file readers as tools. It has no sessions, no streaming and
//! no cancellation; each inbound line either produces one response line, or
//! names the one tool invocation whose outcome the caller must feed back
//! through a reply builder. Running the tools — reading files and
//! directories — is the caller's side.

use vstd::prelude::*;
use crate::jsonq::{json_raw_at, json_str_at, raw_at, str_at};
use crate::requests::{append_escaped, json_escaped};
use crate::text::{
    contains_seq, dec_digits, lines_of, lower_of, push_decimal, split_lines, str_contains,
    str_eq, to_lowercase,
};

verus! {

/// The most entries the search-tool decoder reads from the `files`
/// argument array.
pub const MAX_SEARCH_FILES: usize = 65536;

/// One decoded tool invocation. Missing arguments decode as empty strings,
/// as the responder treats an absent argument and an empty one alike.
pub enum ToolRequest {
    ReadFile { path: String },
    ListFiles { directory: String },
    SearchContent { query: String, files: Vec<String> },
    Unknown { name: String },
}

/// What one inbound line asks of the responder.
pub enum McpStep {
    /// Nothing to answer: an empty or unparseable line, a notification, or
    /// a request without an id.
    Skip,
    /// A complete response line, ready to write.
    Reply { line: String },
    /// A tool must run; answer with one of the reply builders afterwards.
    Tool { id_raw: String, call: ToolRequest },
}

/// The method named by a line, or empty.
pub open spec fn mcp_method(line: Seq<char>) -> Seq<char> {
    match json_str_at(line, "/method"@) {
        Some(m) => m,
        None => Seq::empty(),
    }
}

/// The request id of a line, as raw JSON text.
pub open spec fn mcp_id(line: Seq<char>) -> Option<Seq<char>> {
    json_raw_at(line, "/id"@)
}

/// One full response line for a request id and a pre-rendered result.
pub open spec fn mcp_response_text(id_raw: Seq<char>, result_raw: Seq<char>) -> Seq<char> {
    "{\"id\":"@ + id_raw + ",\"jsonrpc\":\"2.0\",\"result\":"@ + result_raw + "}"@
}

/// Serialize the response object around a raw id and a raw result.
pub fn mcp_response(id_raw: &str, result_raw: &str) -> (r: String)
    ensures
        r@ == mcp_response_text(id_raw@, result_raw@),
{
    let mut r = String::from_str("{\"id\":");
    r.append(id_raw);
    r.append(",\"jsonrpc\":\"2.0\",\"result\":");
    r.append(result_raw);
    r.append("}");
    proof {
        assert(r@ =~= mcp_response_text(id_raw@, result_raw@));
    }
    r
}

/// The capability-negotiation result of the responder.
pub open spec fn init_result_text() -> Seq<char> {
    "{\"capabilities\":{\"tools\":{}},\"protocolVersion\":\"2024-11-05\",\"serverInfo\":{\"name\":\"kiro-notebook-files\",\"version\":\"0.1.0\"}}"@
}

/// The tool catalogue of the responder.
pub open spec fn tools_list_result_text() -> Seq<char> {
    "{\"tools\":[{\"description\":\"Read the text content of a file. Supports PDF, DOCX, MD, TXT, HTML files.\",\"inputSchema\":{\"properties\":{\"path\":{\"description\":\"Absolute path to the file\",\"type\":\"string\"}},\"required\":[\"path\"],\"type\":\"object\"},\"name\":\"read_file\"},{\"description\":\"List files in a directory. Returns file names and paths.\",\"inputSchema\":{\"properties\":{\"directory\":{\"description\":\"Absolute path to directory\",\"type\":\"string\"}},\"required\":[\"directory\"],\"type\":\"object\"},\"name\":\"list_files\"},{\"description\":\"Search for text across multiple files. Returns matching lines with file paths.\",\"inputSchema\":{\"properties\":{\"files\":{\"description\":\"List of absolute file paths to search in\",\"items\":{\"type\":\"string\"},\"type\":\"array\"},\"query\":{\"description\":\"Text to search for\",\"type\":\"string\"}},\"required\":[\"query\",\"files\"],\"type\":\"object\"},\"name\":\"search_content\"}]}"@
}

/// The result answered to a method the responder does not know.
pub open spec fn unknown_method_result_text(method: Seq<char>) -> Seq<char> {
    "{\"error\":\"Unknown method: "@ + json_escaped(method) + "\"}"@
}

/// A result payload carrying one text block.
pub open spec fn text_result_text(t: Seq<char>) -> Seq<char> {
    "{\"content\":[{\"text\":\""@ + json_escaped(t) + "\",\"type\":\"text\"}]}"@
}

/// A result payload carrying one text block and the error mark.
pub open spec fn error_result_text(t: Seq<char>) -> Seq<char> {
    "{\"content\":[{\"text\":\""@ + json_escaped(t) + "\",\"type\":\"text\"}],\"isError\":true}"@
}

fn text_result(t: &str) -> (r: String)
    ensures
        r@ == text_result_text(t@),
{
    let mut r = String::from_str("{\"content\":[{\"text\":\"");
    append_escaped(t, &mut r);
    r.append("\",\"type\":\"text\"}]}");
    proof {
        assert(r@ =~= text_result_text(t@));
    }
    r
}

fn error_result(t: &str) -> (r: String)
    ensures
        r@ == error_result_text(t@),
{
    let mut r = String::from_str("{\"content\":[{\"text\":\"");
    append_escaped(t, &mut r);
    r.append("\",\"type\":\"text\"}],\"isError\":true}");
    proof {
        assert(r@ =~= error_result_text(t@));
    }
    r
}

/// The pointer to one entry of the search tool's file-list argument.
pub open spec fn file_ptr(i: nat) -> Seq<char> {
    "/params/arguments/files/"@ + dec_digits(i)
}

/// The decoded file list: every listed entry is present in the argument
/// array at its index, and — unless the bound was hit — the index after
/// the last listed entry is absent.
pub open spec fn files_decode(line: Seq<char>, files: Seq<String>) -> bool {
    &&& files.len() <= MAX_SEARCH_FILES
    &&& forall|i: int|
        0 <= i < files.len() ==> json_str_at(line, file_ptr(i as nat)) == Some(
            (#[trigger] files[i])@,
        )
    &&& files.len() < MAX_SEARCH_FILES ==> json_str_at(
        line,
        file_ptr(files.len() as nat),
    ) is None
}

fn collect_files(line: &str) -> (files: Vec<String>)
    ensures
        files_decode(line@, files@),
{
    let mut files: Vec<String> = Vec::new();
    while files.len() < MAX_SEARCH_FILES
        invariant
            files@.len() <= MAX_SEARCH_FILES,
            forall|i: int|
                0 <= i < files@.len() ==> json_str_at(line@, file_ptr(i as nat)) == Some(
                    (#[trigger] files@[i])@,
                ),
        decreases MAX_SEARCH_FILES - files@.len(),
    {
        let mut p = String::from_str("/params/arguments/files/");
        push_decimal(files.len() as u64, &mut p);
        proof {
            assert(p@ == file_ptr(files@.len() as nat));
        }
        match str_at(line, p.as_str()) {
            Some(f) => {
                files.push(f);
            },
            None => {
                return files;
            },
        }
    }
    files
}

/// A string argument of the request, decoding to empty when absent.
pub open spec fn str_arg(line: Seq<char>, path: Seq<char>) -> Seq<char> {
    match json_str_at(line, path) {
        Some(s) => s,
        None => Seq::empty(),
    }
}

fn str_arg_at(line: &str, path: &str) -> (r: String)
    ensures
        r@ == str_arg(line@, path@),
{
    match str_at(line, path) {
        Some(s) => s,
        None => String::new(),
    }
}

/// What the decoded tool request of a `tools/call` line must be.
pub open spec fn tool_request_decodes(line: Seq<char>, call: ToolRequest) -> bool {
    let name = str_arg(line, "/params/name"@);
    if name == "read_file"@ {
        call matches ToolRequest::ReadFile { path } && path@ == str_arg(
            line,
            "/params/arguments/path"@,
        )
    } else if name == "list_files"@ {
        call matches ToolRequest::ListFiles { directory } && directory@ == str_arg(
            line,
            "/params/arguments/directory"@,
        )
    } else if name == "search_content"@ {
        call matches ToolRequest::SearchContent { query, files } && query@ == str_arg(
            line,
            "/params/arguments/query"@,
        ) && files_decode(line, files@)
    } else {
        call matches ToolRequest::Unknown { name: n } && n@ == name
    }
}

fn decode_tool_request(line: &str) -> (call: ToolRequest)
    ensures
        tool_request_decodes(line@, call),
{
    let name = str_arg_at(line, "/params/name");
    if str_eq(name.as_str(), "read_file") {
        ToolRequest::ReadFile { path: str_arg_at(line, "/params/arguments/path") }
    } else if str_eq(name.as_str(), "list_files") {
        ToolRequest::ListFiles { directory: str_arg_at(line, "/params/arguments/directory") }
    } else if str_eq(name.as_str(), "search_content") {
        ToolRequest::SearchContent {
            query: str_arg_at(line, "/params/arguments/query"),
            files: collect_files(line),
        }
    } else {
        ToolRequest::Unknown { name }
    }
}

/// What `run_mcp` must answer for one line: notifications and id-less
/// lines are skipped; the two fixed methods are answered at once; a tool
/// call is handed out to run; any other method with an id is answered with
/// the unknown-method result.
pub open spec fn mcp_step_decodes(line: Seq<char>, r: McpStep) -> bool {
    let m = mcp_method(line);
    if m == "notifications/initialized"@ {
        r == McpStep::Skip
    } else {
        match mcp_id(line) {
            None => r == McpStep::Skip,
            Some(idr) => {
                if m == "initialize"@ {
                    r matches McpStep::Reply { line: l } && l@ == mcp_response_text(
                        idr,
                        init_result_text(),
                    )
                } else if m == "tools/list"@ {
                    r matches McpStep::Reply { line: l } && l@ == mcp_response_text(
                        idr,
                        tools_list_result_text(),
                    )
                } else if m == "tools/call"@ {
                    r matches McpStep::Tool { id_raw, call } && id_raw@ == idr
                        && tool_request_decodes(line, call)
                } else {
                    r matches McpStep::Reply { line: l } && l@ == mcp_response_text(
                        idr,
                        unknown_method_result_text(m),
                    )
                }
            },
        }
    }
}

/// Answer one inbound line of the file-tools protocol.
pub fn run_mcp(line: &str) -> (r: McpStep)
    ensures
        mcp_step_decodes(line@, r),
{
    let method = str_arg_at(line, "/method");
    if str_eq(method.as_str(), "notifications/initialized") {
        return McpStep::Skip;
    }
    let id_raw = match raw_at(line, "/id") {
        Some(i) => i,
        None => {
            return McpStep::Skip;
        },
    };
    if str_eq(method.as_str(), "initialize") {
        let result = String::from_str(
            "{\"capabilities\":{\"tools\":{}},\"protocolVersion\":\"2024-11-05\",\"serverInfo\":{\"name\":\"kiro-notebook-files\",\"version\":\"0.1.0\"}}",
        );
        McpStep::Reply { line: mcp_response(id_raw.as_str(), result.as_str()) }
    } else if str_eq(method.as_str(), "tools/list") {
        let result = String::from_str(
            "{\"tools\":[{\"description\":\"Read the text content of a file. Supports PDF, DOCX, MD, TXT, HTML files.\",\"inputSchema\":{\"properties\":{\"path\":{\"description\":\"Absolute path to the file\",\"type\":\"string\"}},\"required\":[\"path\"],\"type\":\"object\"},\"name\":\"read_file\"},{\"description\":\"List files in a directory. Returns file names and paths.\",\"inputSchema\":{\"properties\":{\"directory\":{\"description\":\"Absolute path to directory\",\"type\":\"string\"}},\"required\":[\"directory\"],\"type\":\"object\"},\"name\":\"list_files\"},{\"description\":\"Search for text across multiple files. Returns matching lines with file paths.\",\"inputSchema\":{\"properties\":{\"files\":{\"description\":\"List of absolute file paths to search in\",\"items\":{\"type\":\"string\"},\"type\":\"array\"},\"query\":{\"description\":\"Text to search for\",\"type\":\"string\"}},\"required\":[\"query\",\"files\"],\"type\":\"object\"},\"name\":\"search_content\"}]}",
        );
        McpStep::Reply { line: mcp_response(id_raw.as_str(), result.as_str()) }
    } else if str_eq(method.as_str(), "tools/call") {
        McpStep::Tool { id_raw, call: decode_tool_request(line) }
    } else {
        let mut result = String::from_str("{\"error\":\"Unknown method: ");
        append_escaped(method.as_str(), &mut result);
        result.append("\"}");
        proof {
            assert(result@ =~= unknown_method_result_text(mcp_method(line@)));
        }
        McpStep::Reply { line: mcp_response(id_raw.as_str(), result.as_str()) }
    }
}

/// The lines joined with single newlines.
pub open spec fn joined_lines(v: Seq<String>) -> Seq<char>
    decreases v.len(),
{
    if v.len() == 0 {
        Seq::empty()
    } else if v.len() == 1 {
        v[0]@
    } else {
        joined_lines(v.drop_last()) + "\n"@ + v.last()@
    }
}

/// Join lines with newlines, as the tool results present lists.
pub fn join_lines(v: &Vec<String>) -> (r: String)
    ensures
        r@ == joined_lines(v@),
{
    let mut r = String::new();
    let n = v.len();
    let mut i: usize = 0;
    while i < n
        invariant
            i <= n,
            n == v@.len(),
            r@ == joined_lines(v@.take(i as int)),
        decreases n - i,
    {
        if i > 0 {
            r.append("\n");
        }
        r.append(v[i].as_str());
        proof {
            assert(v@.take(i + 1).drop_last() =~= v@.take(i as int));
            assert(v@.take(i + 1).last() == v@[i as int]);
            if i == 0 {
                assert(r@ =~= joined_lines(v@.take(i + 1)));
            } else {
                assert(r@ =~= joined_lines(v@.take(i + 1)));
            }
        }
        i += 1;
    }
    proof {
        assert(v@.take(n as int) =~= v@);
    }
    r
}

/// Answer a finished read-file tool call: the file's text on success, the
/// error text with the error mark on failure.
pub fn read_file_reply(id_raw: &str, outcome: Result<String, String>) -> (r: String)
    ensures
        match outcome {
            Ok(content) => r@ == mcp_response_text(id_raw@, text_result_text(content@)),
            Err(e) => r@ == mcp_response_text(id_raw@, error_result_text("Error: "@ + e@)),
        },
{
    match outcome {
        Ok(content) => {
            let result = text_result(content.as_str());
            mcp_response(id_raw, result.as_str())
        },
        Err(e) => {
            let mut t = String::from_str("Error: ");
            t.append(e.as_str());
            let result = error_result(t.as_str());
            mcp_response(id_raw, result.as_str())
        },
    }
}

/// Answer a finished listing or search tool call with its lines.
pub fn lines_reply(id_raw: &str, lines: &Vec<String>) -> (r: String)
    ensures
        r@ == mcp_response_text(id_raw@, text_result_text(joined_lines(lines@))),
{
    let text = join_lines(lines);
    let result = text_result(text.as_str());
    mcp_response(id_raw, result.as_str())
}

/// Answer a tool call whose tool the responder does not know.
pub fn unknown_tool_reply(id_raw: &str, name: &str) -> (r: String)
    ensures
        r@ == mcp_response_text(id_raw@, error_result_text("Unknown tool: "@ + name@)),
{
    let mut t = String::from_str("Unknown tool: ");
    t.append(name);
    let result = error_result(t.as_str());
    mcp_response(id_raw, result.as_str())
}

/// A line matches a search query, case-insensitively.
pub open spec fn match_line(query_lower: Seq<char>, l: Seq<char>) -> bool {
    contains_seq(lower_of(l), query_lower)
}

/// One search hit as presented: path, one-based line number, and the line.
pub open spec fn hit_text(path: Seq<char>, no: nat, l: Seq<char>) -> Seq<char> {
    path + ":"@ + dec_digits(no) + ": "@ + l
}

/// The hits of one file, in line order, numbered from `base + 1`.
pub open spec fn search_hits(
    query_lower: Seq<char>,
    path: Seq<char>,
    ls: Seq<Seq<char>>,
    base: nat,
) -> Seq<Seq<char>>
    decreases ls.len(),
{
    if ls.len() == 0 {
        Seq::empty()
    } else {
        let rest = search_hits(query_lower, path, ls.drop_last(), base);
        if match_line(query_lower, ls.last()) {
            rest + seq![hit_text(path, (base + ls.len()) as nat, ls.last())]
        } else {
            rest
        }
    }
}

/// A string list carries exactly these texts.
pub open spec fn texts_are(v: Seq<String>, t: Seq<Seq<char>>) -> bool {
    v.len() == t.len() && forall|i: int| 0 <= i < v.len() ==> (#[trigger] v[i])@ == t[i]
}

/// Search one file's text, already split into lines by its content.
fn search_file(query_lower: &str, path: &str, content: &str) -> (r: Vec<String>)
    ensures
        texts_are(r@, search_hits(query_lower@, path@, lines_of(content@), 0)),
{
    let ls = split_lines(content);
    let mut r: Vec<String> = Vec::new();
    let n = ls.len();
    let mut i: usize = 0;
    while i < n
        invariant
            i <= n,
            n == ls@.len(),
            ls@.len() == lines_of(content@).len(),
            forall|j: int| 0 <= j < n ==> (#[trigger] ls@[j])@ == lines_of(content@)[j],
            texts_are(r@, search_hits(query_lower@, path@, lines_of(content@).take(i as int), 0)),
        decreases n - i,
    {
        proof {
            assert(lines_of(content@).take(i + 1).drop_last() =~= lines_of(content@).take(
                i as int,
            ));
            assert(lines_of(content@).take(i + 1).last() == lines_of(content@)[i as int]);
        }
        let low = to_lowercase(ls[i].as_str());
        if str_contains(low.as_str(), query_lower) {
            let mut hit = String::from_str(path);
            hit.append(":");
            push_decimal((i + 1) as u64, &mut hit);
            hit.append(": ");
            hit.append(ls[i].as_str());
            proof {
                assert(hit@ =~= hit_text(path@, (i + 1) as nat, lines_of(content@)[i as int]));
            }
            let ghost pre = r@;
            r.push(hit);
            proof {
                assert(r@.drop_last() =~= pre);
            }
        }
        i += 1;
    }
    proof {
        assert(lines_of(content@).take(n as int) =~= lines_of(content@));
    }
    r
}

/// All hits over the readable documents, file by file.
pub open spec fn all_hits(query_lower: Seq<char>, docs: Seq<(String, String)>) -> Seq<Seq<char>>
    decreases docs.len(),
{
    if docs.len() == 0 {
        Seq::empty()
    } else {
        all_hits(query_lower, docs.drop_last()) + search_hits(
            query_lower,
            docs.last().0@,
            lines_of(docs.last().1@),
            0,
        )
    }
}

/// Search the given documents — pairs of path and text, in the order the
/// request listed them — for a query, case-insensitively, and present each
/// hit as `path:line-number: line`.
pub fn search_content(query: &str, docs: &Vec<(String, String)>) -> (r: Vec<String>)
    ensures
        texts_are(r@, all_hits(lower_of(query@), docs@)),
{
    let query_lower = to_lowercase(query);
    let mut r: Vec<String> = Vec::new();
    let n = docs.len();
    let mut i: usize = 0;
    while i < n
        invariant
            i <= n,
            n == docs@.len(),
            query_lower@ == lower_of(query@),
            texts_are(r@, all_hits(lower_of(query@), docs@.take(i as int))),
        decreases n - i,
    {
        proof {
            assert(docs@.take(i + 1).drop_last() =~= docs@.take(i as int));
            assert(docs@.take(i + 1).last() == docs@[i as int]);
        }
        let hits = search_file(
            query_lower.as_str(),
            docs[i].0.as_str(),
            docs[i].1.as_str(),
        );
        let ghost pre = r@;
        let ghost hview = hits@;
        let m = hits.len();
        let mut k: usize = 0;
        let mut hits = hits;
        while k < m
            invariant
                k <= m,
                m == hview.len(),
                hits@ == hview,
                r@ == pre + hview.take(k as int),
            decreases m - k,
        {
            let h = hits[k].clone();
            r.push(h);
            proof {
                assert(pre + hview.take(k + 1) =~= (pre + hview.take(k as int)).push(hview[
                    k as int]));
            }
            k += 1;
        }
        proof {
            assert(hview.take(m as int) =~= hview);
            assert(texts_are(r@, all_hits(lower_of(query@), docs@.take(i + 1))));
        }
        i += 1;
    }
    proof {
        assert(docs@.take(n as int) =~= docs@);
    }
    r
}

} // verus!
