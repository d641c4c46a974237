//! Human-readable rendering of search and fetch responses for the terminal.
//! (The JSON output mode serializes the raw response and lives with the
//! process edge, outside this module.)
use vstd::prelude::*;

verus! {

use crate::client::FetchResponse;
use crate::client::SearchResponse;
use crate::client::SearchResult;
use crate::text::dec_digits;
use crate::text::decimal_string;
use crate::text::spec_truncate;
use crate::text::truncate_utf8;
use vstd::string::StringExecFns;
use vstd::string::StringSliceAdditionalSpecFns;
use vstd::utf8::decode_utf8;
use vstd::utf8::encode_utf8;

/// A search result's content as displayed: unchanged up to 200 bytes, else
/// cut at a character boundary with an ellipsis.
pub open spec fn spec_content_preview(content: Seq<char>) -> Seq<char> {
    if encode_utf8(content).len() > 200 {
        decode_utf8(spec_truncate(encode_utf8(content), 200)) + "..."@
    } else {
        content
    }
}

/// One displayed search result: number, title, URL and content preview.
pub open spec fn spec_display_block(r: SearchResult, num: nat) -> Seq<char> {
    dec_digits(num) + ". "@ + r.title@ + "\n   "@ + r.url@ + "\n   "@ + spec_content_preview(
        r.content@,
    ) + "\n\n"@
}

pub open spec fn spec_display_blocks(results: Seq<SearchResult>) -> Seq<char>
    decreases results.len(),
{
    if results.len() == 0 {
        Seq::empty()
    } else {
        spec_display_blocks(results.drop_last()) + spec_display_block(
            results.last(),
            results.len() as nat,
        )
    }
}

/// The whole displayed search response: a count line and the numbered
/// results, or a fixed line when there are none.
pub open spec fn spec_format_search_results(results: Seq<SearchResult>) -> Seq<char> {
    if results.len() == 0 {
        "No results found.\n"@
    } else {
        "Found "@ + dec_digits(results.len() as nat) + " results:\n\n"@ + spec_display_blocks(
            results,
        )
    }
}

/// Renders a search response for the terminal.
#[verifier::rlimit(50)]
pub fn format_search_results(response: &SearchResponse) -> (r: String)
    ensures
        r@ == spec_format_search_results(response.results@),
{
    if response.results.len() == 0 {
        return String::from_str("No results found.\n");
    }
    let mut out = String::from_str("Found ");
    let n = decimal_string(response.results.len() as u64);
    out.append(n.as_str());
    out.append(" results:\n\n");
    let ghost header = out@;
    let mut i: usize = 0;
    while i < response.results.len()
        invariant
            i <= response.results@.len(),
            out@ == header + spec_display_blocks(response.results@.take(i as int)),
        decreases response.results@.len() - i,
    {
        let res = &response.results[i];
        let num = decimal_string((i + 1) as u64);
        out.append(num.as_str());
        out.append(". ");
        out.append(res.title.as_str());
        out.append("\n   ");
        out.append(res.url.as_str());
        out.append("\n   ");
        if res.content.as_str().as_bytes().len() > 200 {
            let preview = truncate_utf8(res.content.as_str(), 200);
            proof {
                vstd::utf8::encode_utf8_decode_utf8(preview@);
            }
            out.append(preview);
            out.append("...");
        } else {
            out.append(res.content.as_str());
        }
        out.append("\n\n");
        proof {
            assert(response.results@.take(i + 1).drop_last() =~= response.results@.take(i as int));
            assert(response.results@.take(i + 1).last() == response.results@[i as int]);
            assert(out@ =~= header + spec_display_blocks(response.results@.take(i + 1)));
        }
        i = i + 1;
    }
    proof {
        assert(response.results@.take(response.results@.len() as int) =~= response.results@);
    }
    out
}

/// A fetched page's content as displayed: unchanged up to 1000 bytes, else
/// cut at a character boundary with a note that the full content is behind
/// the JSON mode.
pub open spec fn spec_fetch_preview(content: Seq<char>) -> Seq<char> {
    if encode_utf8(content).len() > 1000 {
        decode_utf8(spec_truncate(encode_utf8(content), 1000))
            + "...\n\n[Content truncated. Use --json for full content]"@
    } else {
        content
    }
}

/// The displayed list of links: the first ten, numbered, and a count of the
/// rest.
pub open spec fn spec_links_lines(links: Seq<String>, upto: int) -> Seq<char>
    decreases upto,
{
    if upto <= 0 {
        Seq::empty()
    } else {
        spec_links_lines(links, upto - 1) + "  "@ + dec_digits(upto as nat) + ". "@ + links[upto
            - 1]@ + "\n"@
    }
}

pub open spec fn spec_links_section(links: Seq<String>) -> Seq<char> {
    if links.len() == 0 {
        Seq::empty()
    } else {
        let shown = if links.len() > 10 {
            10int
        } else {
            links.len() as int
        };
        "Found "@ + dec_digits(links.len() as nat) + " links:\n"@ + spec_links_lines(links, shown)
            + (if links.len() > 10 {
            "  ... and "@ + dec_digits((links.len() - 10) as nat) + " more\n"@
        } else {
            Seq::empty()
        })
    }
}

/// The whole displayed fetch response: title, content preview, and the link
/// list.
pub open spec fn spec_format_fetch_response(
    title: Seq<char>,
    content: Seq<char>,
    links: Seq<String>,
) -> Seq<char> {
    "Title: "@ + title + "\n\nContent:\n"@ + spec_fetch_preview(content) + "\n\n"@
        + spec_links_section(links)
}

/// Renders a fetch response for the terminal.
pub fn format_fetch_response(response: &FetchResponse) -> (r: String)
    ensures
        r@ == spec_format_fetch_response(
            response.title@,
            response.content@,
            response.links@,
        ),
{
    let mut out = String::from_str("Title: ");
    out.append(response.title.as_str());
    out.append("\n\nContent:\n");
    if response.content.as_str().as_bytes().len() > 1000 {
        let preview = truncate_utf8(response.content.as_str(), 1000);
        proof {
            vstd::utf8::encode_utf8_decode_utf8(preview@);
        }
        out.append(preview);
        out.append("...\n\n[Content truncated. Use --json for full content]");
    } else {
        out.append(response.content.as_str());
    }
    out.append("\n\n");
    if response.links.len() > 0 {
        out.append("Found ");
        let n = decimal_string(response.links.len() as u64);
        out.append(n.as_str());
        out.append(" links:\n");
        let ghost header = out@;
        let shown: usize = if response.links.len() > 10 {
            10
        } else {
            response.links.len()
        };
        let mut i: usize = 0;
        while i < shown
            invariant
                i <= shown,
                shown <= response.links@.len(),
                out@ == header + spec_links_lines(response.links@, i as int),
            decreases shown - i,
        {
            out.append("  ");
            let num = decimal_string((i + 1) as u64);
            out.append(num.as_str());
            out.append(". ");
            out.append(response.links[i].as_str());
            out.append("\n");
            i = i + 1;
        }
        if response.links.len() > 10 {
            out.append("  ... and ");
            let more = decimal_string((response.links.len() - 10) as u64);
            out.append(more.as_str());
            out.append(" more\n");
        }
    }
    out
}

} // verus!
