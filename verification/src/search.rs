//! The web-search tool's decision logic and result rendering. The HTTP
//! fetch against the search API happens in the surrounding process; the
//! parameter screening, the API-key resolution, and the formatting of the
//! fetched results are verified here on plain copies of the response
//! fields.

use vstd::prelude::*;
use vstd::string::*;
use vstd::utf8::encode_utf8;
use crate::jsonval;
use crate::text::dec_str;
use crate::text::trim_of;
use crate::text::trim_str;
use crate::text::u64_to_string;

verus! {

/// Searches the web through the Brave Search API.
pub struct WebSearchTool {
    /// Subscription token presented to the API.
    pub api_key: String,
    /// Default number of results when a request names none.
    pub max_results: usize,
    /// Bound on each outbound request, in seconds.
    pub timeout_secs: u64,
}

/// A count clamped into the API's accepted range.
pub open spec fn clamp_1_20(c: int) -> int {
    if c < 1 {
        1
    } else if c > 20 {
        20
    } else {
        c
    }
}

/// The number of results one request will ask for.
pub open spec fn resolved_count(count_arg: Option<u64>, max_results: usize) -> int {
    match count_arg {
        Some(c) => clamp_1_20(c as int),
        None => clamp_1_20(max_results as int),
    }
}

/// What the tool decided about one search request, in the order the gates
/// run.
pub enum SearchGate {
    /// The `query` parameter is absent or not a string.
    MissingQuery,
    /// The query is blank.
    EmptyQuery,
    /// No API key is configured.
    NoApiKey,
    /// Fetch: ask the API for `count` results for `query` (sent as given,
    /// untrimmed).
    Fetch { query: String, count: u64 },
}

impl WebSearchTool {
    pub fn new(api_key: String, max_results: usize, timeout_secs: u64) -> (t: Self)
        ensures
            t.api_key == api_key,
            t.max_results == max_results,
            t.timeout_secs == timeout_secs,
    {
        WebSearchTool { api_key, max_results, timeout_secs }
    }

    /// The tool's stable name.
    pub fn name(&self) -> (r: &'static str)
        ensures
            r@ == "web_search"@,
    {
        "web_search"
    }

    pub fn description(&self) -> (r: &'static str)
        ensures
            r@.len() > 0,
    {
        proof {
            reveal_strlit(
                "Search the web using Brave Search API. Returns titles, URLs, and descriptions of relevant web pages.",
            );
        }
        "Search the web using Brave Search API. Returns titles, URLs, and descriptions of relevant web pages."
    }

    /// The JSON schema of the tool's parameters, as text.
    pub fn parameters_schema_json(&self) -> (r: &'static str)
        ensures
            r@.len() > 0,
    {
        proof {
            reveal_strlit(
                "{\"type\":\"object\",\"properties\":{\"query\":{\"type\":\"string\",\"description\":\"The search query to look up on the web\"},\"count\":{\"type\":\"integer\",\"description\":\"Number of results to return (1-20, default: 5)\",\"minimum\":1,\"maximum\":20,\"default\":5}},\"required\":[\"query\"]}",
            );
        }
        "{\"type\":\"object\",\"properties\":{\"query\":{\"type\":\"string\",\"description\":\"The search query to look up on the web\"},\"count\":{\"type\":\"integer\",\"description\":\"Number of results to return (1-20, default: 5)\",\"minimum\":1,\"maximum\":20,\"default\":5}},\"required\":[\"query\"]}"
    }

    /// The JSON schema of the tool's parameters.
    pub fn parameters_schema(&self) -> serde_json::Value {
        jsonval::parse_json_text(self.parameters_schema_json())
    }

    /// Resolves the API key: a non-blank configured key wins, else a
    /// non-blank environment value (kept as found), else nothing.
    pub fn resolve_api_key(config_key: Option<&str>, env_key: Option<String>) -> (r: Option<String>)
        ensures
            (match config_key {
                Some(k) => trim_of(k@).len() > 0,
                None => false,
            }) ==> (match (r, config_key) {
                (Some(v), Some(k)) => v@ == trim_of(k@),
                _ => false,
            }),
            (match config_key {
                Some(k) => trim_of(k@).len() == 0,
                None => true,
            }) ==> (match env_key {
                Some(e) => if trim_of(e@).len() > 0 {
                    (r matches Some(v) && v@ == e@)
                } else {
                    r is None
                },
                None => r is None,
            }),
    {
        if let Some(k) = config_key {
            let t = trim_str(k);
            if !t.as_str().is_empty() {
                return Some(t);
            }
        }
        match env_key {
            Some(e) => {
                let t = trim_str(e.as_str());
                if !t.as_str().is_empty() {
                    Some(e)
                } else {
                    None
                }
            },
            None => None,
        }
    }

    /// Screens one search request given its plain parameter values: the
    /// gates run in order — missing query, blank query, missing API key —
    /// and an accepted request asks for the clamped count.
    pub fn plan_search(&self, query: Option<String>, count_arg: Option<u64>) -> (g: SearchGate)
        ensures
            g is MissingQuery <==> query is None,
            g is EmptyQuery <==> (query matches Some(q) && trim_of(q@).len() == 0),
            g is NoApiKey <==> (query matches Some(q) && trim_of(q@).len() > 0
                && self.api_key@.len() == 0),
            g is Fetch <==> (query matches Some(q) && trim_of(q@).len() > 0 && self.api_key@.len()
                > 0),
            g matches SearchGate::Fetch { query: q, count: c } ==> (query matches Some(q0) && q@
                == q0@ && c as int == resolved_count(count_arg, self.max_results)),
    {
        let q = match query {
            Some(q) => q,
            None => {
                return SearchGate::MissingQuery;
            },
        };
        let t = trim_str(q.as_str());
        if t.as_str().is_empty() {
            return SearchGate::EmptyQuery;
        }
        if self.api_key.as_str().is_empty() {
            return SearchGate::NoApiKey;
        }
        let count: u64 = match count_arg {
            Some(c) => if c < 1 {
                1
            } else if c > 20 {
                20
            } else {
                c
            },
            None => {
                let m = self.max_results;
                if m < 1 {
                    1
                } else if m > 20 {
                    20
                } else {
                    m as u64
                }
            },
        };
        SearchGate::Fetch { query: q, count }
    }

    /// Screens one search request as it arrives from the wire: copies the
    /// `query` and `count` parameters out of the JSON arguments and judges
    /// them with [`Self::plan_search`]. Whatever the payload held, an
    /// accepted request carries a configured API key and a count between 1
    /// and 20.
    pub fn plan_search_json(&self, args: &serde_json::Value) -> (g: SearchGate)
        ensures
            g is Fetch ==> self.api_key@.len() > 0,
            g matches SearchGate::Fetch { query: q, count: c } ==> 1 <= c <= 20,
    {
        let query = jsonval::json_get_str(args, "query");
        let count_arg = jsonval::json_get_u64(args, "count");
        self.plan_search(query, count_arg)
    }
}

/// One fetched search hit, copied out of the response.
pub struct SearchResult {
    pub title: Option<String>,
    pub url: Option<String>,
    pub description: Option<String>,
}

/// The cap applied to each rendered description.
pub const DESCRIPTION_CAP: usize = 300;

/// A string shortened for display: when it exceeds `max_len` bytes, its
/// first `max_len` characters followed by an ellipsis.
pub open spec fn truncate_spec(s: Seq<char>, max_len: int) -> Seq<char> {
    if encode_utf8(s).len() > max_len {
        (if s.len() <= max_len {
            s
        } else {
            s.take(max_len)
        }) + "..."@
    } else {
        s
    }
}

/// Shortens `s` for display: over `max_len` bytes, its first `max_len`
/// characters are kept and an ellipsis appended.
pub fn truncate_string(s: &str, max_len: usize) -> (r: String)
    ensures
        r@ == truncate_spec(s@, max_len as int),
{
    if s.as_bytes().len() > max_len {
        let n = s.unicode_len();
        let k = if n <= max_len {
            n
        } else {
            max_len
        };
        let mut r = s.substring_char(0, k).to_owned();
        r.append("...");
        r
    } else {
        s.to_owned()
    }
}

/// The title shown for a hit.
pub open spec fn title_of(it: SearchResult) -> Seq<char> {
    match it.title {
        Some(t) => t@,
        None => "No title"@,
    }
}

/// The URL shown for a hit.
pub open spec fn url_of(it: SearchResult) -> Seq<char> {
    match it.url {
        Some(u) => u@,
        None => Seq::empty(),
    }
}

/// The description shown for a hit.
pub open spec fn description_of(it: SearchResult) -> Seq<char> {
    match it.description {
        Some(d) => d@,
        None => "No description"@,
    }
}

/// One rendered hit: its 1-based rank, title, URL and capped description.
pub open spec fn result_entry(i: int, it: SearchResult) -> Seq<char> {
    dec_str((i + 1) as nat) + ". "@ + title_of(it) + "\n   URL: "@ + url_of(it) + "\n   "@
        + truncate_spec(description_of(it), DESCRIPTION_CAP as int)
}

/// The first `upto` hits rendered in order, separated by blank lines.
pub open spec fn formatted_results(items: Seq<SearchResult>, upto: int) -> Seq<char>
    decreases upto,
{
    if upto <= 0 {
        Seq::empty()
    } else if upto == 1 {
        result_entry(0, items[0])
    } else {
        formatted_results(items, upto - 1) + "\n\n"@ + result_entry(upto - 1, items[upto - 1])
    }
}

/// Renders the first `count` hits, or the no-results notice when there are
/// none.
#[verifier::rlimit(50)]
pub fn format_results(items: &Vec<SearchResult>, count: usize) -> (r: String)
    ensures
        items@.len() == 0 ==> r@ == "No results found for the given query."@,
        items@.len() > 0 ==> r@ == formatted_results(
            items@,
            if count <= items@.len() {
                count as int
            } else {
                items@.len() as int
            },
        ),
{
    let n = items.len();
    if n == 0 {
        return "No results found for the given query.".to_owned();
    }
    let k = if count <= n {
        count
    } else {
        n
    };
    let mut r = String::new();
    let mut i: usize = 0;
    proof {
        assert(r@ =~= formatted_results(items@, 0));
    }
    while i < k
        invariant
            0 <= i <= k,
            k <= n,
            n == items@.len(),
            r@ == formatted_results(items@, i as int),
        decreases k - i,
    {
        let mut entry = u64_to_string((i as u64) + 1);
        entry.append(". ");
        match &items[i].title {
            Some(t) => entry.append(t.as_str()),
            None => entry.append("No title"),
        }
        entry.append("\n   URL: ");
        match &items[i].url {
            Some(u) => entry.append(u.as_str()),
            None => (),
        }
        entry.append("\n   ");
        let desc = match &items[i].description {
            Some(d) => truncate_string(d.as_str(), DESCRIPTION_CAP),
            None => truncate_string("No description", DESCRIPTION_CAP),
        };
        entry.append(desc.as_str());
        proof {
            assert(entry@ =~= result_entry(i as int, items@[i as int]));
        }
        if i > 0 {
            r.append("\n\n");
        }
        r.append(entry.as_str());
        proof {
            assert(r@ =~= formatted_results(items@, i + 1));
        }
        i = i + 1;
    }
    r
}

/// Renders a search API response body: digs out `web.results`, copies each
/// hit's fields, and formats the first `count` of them; a missing or empty
/// result list yields the no-results notice.
pub fn render_response(body: &serde_json::Value, count: usize) -> (r: String)
    ensures
        r@ == "No results found for the given query."@ || exists|items: Seq<SearchResult>|
            items.len() > 0 && r@ == formatted_results(
                items,
                if count <= items.len() {
                    count as int
                } else {
                    items.len() as int
                },
            ),
{
    let arr: Option<Vec<serde_json::Value>> = match jsonval::json_get(body, "web") {
        Some(w) => match jsonval::json_get(&w, "results") {
            Some(rs) => jsonval::json_as_array(&rs),
            None => None,
        },
        None => None,
    };
    match arr {
        Some(raw) => {
            let mut items: Vec<SearchResult> = Vec::new();
            let n = raw.len();
            let mut i: usize = 0;
            while i < n
                invariant
                    0 <= i <= n,
                    n == raw@.len(),
                    items@.len() == i,
                decreases n - i,
            {
                items.push(
                    SearchResult {
                        title: jsonval::json_get_str(&raw[i], "title"),
                        url: jsonval::json_get_str(&raw[i], "url"),
                        description: jsonval::json_get_str(&raw[i], "description"),
                    },
                );
                i = i + 1;
            }
            let out = format_results(&items, count);
            proof {
                if items@.len() > 0 {
                    assert(out@ == formatted_results(
                        items@,
                        if count <= items@.len() {
                            count as int
                        } else {
                            items@.len() as int
                        },
                    ));
                }
            }
            out
        },
        None => format_results(&Vec::new(), count),
    }
}

} // verus!
