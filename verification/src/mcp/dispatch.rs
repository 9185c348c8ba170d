//! The tools `search_items` and `get_item`. Scores and embeddings are floating-point
//! numbers: a score is carried along as it stands, an embedding stays with whoever
//! made it.

use crate::error::AppError;
use crate::ids::{uuid_read, Uuid};
use crate::json::{self, json_of, json_pretty, opt_int_json, opt_str_json, str_field, u64_field, Json};
use crate::text::{chars_of, is_blank, same, string_between, trim_slashes, trimmed, without_trailing_slashes};
use vstd::prelude::*;
use vstd::string::*;

verus! {

/// How many hits a search returns.
#[derive(Debug, Clone, Copy, PartialEq, Eq)]
pub struct SearchLimits {
    /// Unless the call says otherwise.
    pub default_limit: u32,
    /// At most.
    pub max_limit: u32,
}

/// The UUID in the field `key`, if there is one.
pub open spec fn uuid_field(j: Json, key: Seq<char>) -> Option<Uuid> {
    match str_field(j, key) {
        Some(s) => match uuid_read(s) {
            Some(bits) => Some(Uuid { bits }),
            None => None,
        },
        None => None,
    }
}

/// The UUID in the field `key`.
fn find_uuid(args: &serde_json::Value, key: &str) -> (r: Option<Uuid>)
    ensures
        r == uuid_field(json_of(*args), key@),
        match str_field(json_of(*args), key@) {
            Some(s) => match r {
                Some(id) => uuid_read(s) == Some(id.bits),
                None => uuid_read(s) is None,
            },
            None => r is None,
        },
{
    match json::text_field(args, key) {
        Some(s) => Uuid::parse(s),
        None => None,
    }
}

/// The number that a call asks for: its field `limit`, of which only the lower 32
/// bits count.
pub open spec fn asked_limit(args: Json, default_limit: u32) -> int {
    match u64_field(args, "limit"@) {
        Some(n) => n as int % 0x1_0000_0000,
        None => default_limit as int,
    }
}

/// How many hits to look for.
pub open spec fn limit_of(args: Json, limits: SearchLimits) -> int {
    let n = asked_limit(args, limits.default_limit);
    if n < 1 {
        1
    } else if n > limits.max_limit {
        limits.max_limit as int
    } else {
        n
    }
}

/// How many hits to look for.
pub fn search_limit(args: &serde_json::Value, limits: SearchLimits) -> (n: u32)
    requires
        limits.max_limit >= 1,
    ensures
        n == limit_of(json_of(*args), limits),
        1 <= n <= limits.max_limit,
        match u64_field(json_of(*args), "limit"@) {
            Some(asked) => {
                &&& 1 <= asked <= limits.max_limit ==> n == asked
                &&& limits.max_limit < asked <= u32::MAX ==> n == limits.max_limit
                &&& asked == 0 ==> n == 1
                &&& 1 <= asked % 0x1_0000_0000 <= limits.max_limit ==> n == asked % 0x1_0000_0000
            },
            None => {
                &&& 1 <= limits.default_limit <= limits.max_limit ==> n == limits.default_limit
                &&& limits.default_limit > limits.max_limit ==> n == limits.max_limit
                &&& limits.default_limit == 0 ==> n == 1
            },
        },
{
    let n: u32 = match json::count_field(args, "limit") {
        Some(asked) => {
            assert(asked as u32 == asked % 0x1_0000_0000) by (bit_vector);
            #[verifier::truncate]
            (asked as u32)
        },
        None => limits.default_limit,
    };
    if n < 1 {
        1
    } else if n > limits.max_limit {
        limits.max_limit
    } else {
        n
    }
}

/// A search that a call asks for.
#[derive(Debug)]
pub struct SearchRequest {
    pub query: String,
    pub limit: u32,
    pub repo_id: Option<Uuid>,
}

impl SearchRequest {
    /// Whether this is the search that `args` ask for.
    pub open spec fn asked_by(&self, args: Json, limits: SearchLimits) -> bool {
        &&& str_field(args, "query"@) == Some(self.query@)
        &&& self.limit == limit_of(args, limits)
        &&& self.repo_id == uuid_field(args, "repo_id"@)
    }
}

/// Whether `args` name something to search for.
pub open spec fn has_query(args: Json) -> bool {
    match str_field(args, "query"@) {
        Some(q) => trimmed(q).len() > 0,
        None => false,
    }
}

/// The search that a call asks for. It must name something to search for; a
/// repository that is not named by a UUID is passed over.
pub fn search_request(args: &serde_json::Value, limits: SearchLimits) -> (r: Result<SearchRequest, AppError>)
    requires
        limits.max_limit >= 1,
    ensures
        match r {
            Ok(search) => has_query(json_of(*args)) && search.asked_by(json_of(*args), limits),
            Err(e) => !has_query(json_of(*args)) && e == AppError::InvalidInput,
        },
        match str_field(json_of(*args), "query"@) {
            Some(q) => if trimmed(q).len() > 0 {
                r matches Ok(search) && search.query@ == q && match str_field(json_of(*args), "repo_id"@) {
                    Some(s) => match search.repo_id {
                        Some(id) => uuid_read(s) == Some(id.bits),
                        None => uuid_read(s) is None,
                    },
                    None => search.repo_id is None,
                }
            } else {
                r is Err
            },
            None => r is Err,
        },
{
    match json::text_field(args, "query") {
        None => Err(AppError::InvalidInput),
        Some(query) => if is_blank(query) {
            Err(AppError::InvalidInput)
        } else {
            Ok(
                SearchRequest {
                    query: query.to_owned(),
                    limit: search_limit(args, limits),
                    repo_id: find_uuid(args, "repo_id"),
                },
            )
        },
    }
}

/// What the embedding service is asked.
#[derive(Debug)]
pub struct EmbedRequest {
    pub url: String,
    pub body: serde_json::Value,
}

/// What the embedding service is asked for a prompt.
pub fn embed_request(ollama_url: &str, model: &str, prompt: &str) -> (r: EmbedRequest)
    ensures
        r.url@ == without_trailing_slashes(ollama_url@) + "/api/embeddings"@,
        json_of(r.body) == Json::Object(map!["model"@ => Json::Str(model@), "prompt"@ => Json::Str(prompt@)]),
{
    let mut url = trim_slashes(ollama_url);
    url.append("/api/embeddings");
    let body = json::with(json::object(), "model", json::string(model));
    EmbedRequest { url, body: json::with(body, "prompt", json::string(prompt)) }
}

/// A form of the query that is searched for.
#[derive(Debug)]
pub struct Variant {
    pub text: String,
    /// Whether it is the query itself, whose embedding is there already.
    pub is_query: bool,
}

/// Whether `variants` are the forms `texts` of the query, in their order.
pub open spec fn variants_of(variants: Seq<Variant>, texts: Seq<String>, query: Seq<char>) -> bool {
    &&& variants.len() == texts.len()
    &&& forall|i: int|
        0 <= i < texts.len() ==> (#[trigger] variants[i]).text == texts[i] && variants[i].is_query == (texts[i]@ == query)
}

/// Which forms of the query still need an embedding.
pub fn query_variants(texts: Vec<String>, query: &str) -> (variants: Vec<Variant>)
    ensures
        variants_of(variants@, texts@, query@),
        variants@.len() == texts@.len(),
        forall|i: int|
            0 <= i < texts@.len() ==> (#[trigger] variants@[i]).text == texts@[i] && variants@[i].is_query == (texts@[i]@
                == query@),
{
    let mut variants: Vec<Variant> = Vec::new();
    for text in it: texts
        invariant
            it.seq() == texts@,
            variants@.len() == it.index(),
            forall|i: int|
                0 <= i < variants@.len() ==> (#[trigger] variants@[i]).text == texts@[i] && variants@[i].is_query == (
                texts@[i]@ == query@),
    {
        let is_query = same(text.as_str(), query);
        variants.push(Variant { text, is_query });
    }
    variants
}

/// A hit of a search over several forms of a query.
#[derive(Debug)]
pub struct HybridHit {
    pub repo_id: String,
    pub source_path: Option<String>,
    pub line_start: Option<i64>,
    pub line_end: Option<i64>,
    /// The score, as JSON has it.
    pub score: serde_json::Value,
}

/// Where a hit is in the sources.
#[derive(Debug)]
pub struct Citation {
    pub repo_id: Uuid,
    pub file_path: String,
    pub line_start: i64,
    pub line_end: i64,
    pub commit_sha: String,
    /// The score, as JSON has it.
    pub score: serde_json::Value,
}

/// The UUID that `s` stands for, if it stands for one.
pub open spec fn parsed(s: Seq<char>) -> Option<Uuid> {
    match uuid_read(s) {
        Some(bits) => Some(Uuid { bits }),
        None => None,
    }
}

/// The repositories that hits are in, each once, in the order of the first hit.
pub open spec fn repos_hit(hits: Seq<HybridHit>) -> Seq<Uuid>
    decreases hits.len(),
{
    if hits.len() == 0 {
        Seq::empty()
    } else {
        let before = repos_hit(hits.drop_last());
        match parsed(hits.last().repo_id@) {
            Some(id) => if before.contains(id) {
                before
            } else {
                before.push(id)
            },
            None => before,
        }
    }
}

/// Whether `id` is among `ids`.
fn is_among(ids: &Vec<Uuid>, id: Uuid) -> (r: bool)
    ensures
        r == ids@.contains(id),
{
    let mut i: usize = 0;
    while i < ids.len()
        invariant
            i <= ids@.len(),
            forall|j: int| 0 <= j < i ==> ids@[j] != id,
        decreases ids@.len() - i,
    {
        if ids[i].bits == id.bits {
            return true;
        }
        i += 1;
    }
    false
}

/// The repositories that hits are in.
pub fn hit_repos(hits: &Vec<HybridHit>) -> (ids: Vec<Uuid>)
    ensures
        ids@ == repos_hit(hits@),
        ids@.no_duplicates(),
        forall|i: int|
            0 <= i < hits@.len() ==> (uuid_read((#[trigger] hits@[i]).repo_id@) matches Some(bits) ==> ids@.contains(
                Uuid { bits },
            )),
        forall|k: int|
            0 <= k < ids@.len() ==> exists|i: int|
                0 <= i < hits@.len() && uuid_read((#[trigger] hits@[i]).repo_id@) == Some((#[trigger] ids@[k]).bits),
{
    let mut ids: Vec<Uuid> = Vec::new();
    let mut i: usize = 0;
    while i < hits.len()
        invariant
            i <= hits@.len(),
            ids@ == repos_hit(hits@.take(i as int)),
            ids@.no_duplicates(),
            forall|j: int|
                0 <= j < i ==> (uuid_read((#[trigger] hits@[j]).repo_id@) matches Some(bits) ==> ids@.contains(
                    Uuid { bits },
                )),
            forall|k: int|
                0 <= k < ids@.len() ==> exists|j: int|
                    0 <= j < i && uuid_read((#[trigger] hits@[j]).repo_id@) == Some((#[trigger] ids@[k]).bits),
        decreases hits@.len() - i,
    {
        assert(hits@.take(i + 1).drop_last() =~= hits@.take(i as int));
        assert(hits@.take(i + 1).last() == hits@[i as int]);
        let ghost before = ids@;
        match Uuid::parse(hits[i].repo_id.as_str()) {
            Some(id) => {
                if !is_among(&ids, id) {
                    ids.push(id);
                    assert(ids@[ids@.len() - 1] == id);
                }
            },
            None => {},
        }
        proof {
            assert forall|j: int| 0 <= j <= i implies (uuid_read((#[trigger] hits@[j]).repo_id@) matches Some(bits)
                ==> ids@.contains(Uuid { bits })) by {
                if j < i && uuid_read(hits@[j].repo_id@) is Some {
                    let id = Uuid { bits: uuid_read(hits@[j].repo_id@)->0 };
                    let k = choose|k: int| 0 <= k < before.len() && before[k] == id;
                    assert(ids@[k] == id);
                }
            }
            assert forall|k: int| 0 <= k < ids@.len() implies exists|j: int|
                0 <= j < i + 1 && uuid_read((#[trigger] hits@[j]).repo_id@) == Some((#[trigger] ids@[k]).bits) by {
                if k < before.len() {
                    let j = choose|j: int|
                        0 <= j < i && uuid_read((#[trigger] hits@[j]).repo_id@) == Some(before[k].bits);
                    assert(uuid_read(hits@[j].repo_id@) == Some(ids@[k].bits));
                } else {
                    assert(uuid_read(hits@[i as int].repo_id@) == Some(ids@[k].bits));
                }
            }
        }
        i += 1;
    }
    assert(hits@.take(hits@.len() as int) =~= hits@);
    ids
}

/// The commit that was read last of a repository.
#[derive(Debug)]
pub struct RepoCommit {
    pub repo_id: Uuid,
    pub commit_sha: String,
}

/// The commit of the repository `id`; `unknown` where none is listed.
pub open spec fn commit_of(commits: Seq<RepoCommit>, id: Uuid) -> Seq<char>
    decreases commits.len(),
{
    if commits.len() == 0 {
        "unknown"@
    } else if commits[0].repo_id == id {
        commits[0].commit_sha@
    } else {
        commit_of(commits.skip(1), id)
    }
}

/// The commit of the repository `id`.
pub fn find_commit(commits: &Vec<RepoCommit>, id: Uuid) -> (sha: String)
    ensures
        sha@ == commit_of(commits@, id),
        (forall|i: int| 0 <= i < commits@.len() ==> (#[trigger] commits@[i]).repo_id != id) ==> sha@ == "unknown"@,
        (exists|i: int| 0 <= i < commits@.len() && (#[trigger] commits@[i]).repo_id == id) ==> exists|i: int|
            0 <= i < commits@.len() && (#[trigger] commits@[i]).repo_id == id && commits@[i].commit_sha@ == sha@,
{
    let mut i: usize = 0;
    assert(commits@.skip(0) =~= commits@);
    while i < commits.len()
        invariant
            i <= commits@.len(),
            commit_of(commits@, id) == commit_of(commits@.skip(i as int), id),
            forall|j: int| 0 <= j < i ==> (#[trigger] commits@[j]).repo_id != id,
        decreases commits@.len() - i,
    {
        if commits[i].repo_id.bits == id.bits {
            assert(commits@[i as int].repo_id == id);
            return commits[i].commit_sha.clone();
        }
        assert(commits@.skip(i as int).skip(1) =~= commits@.skip(i + 1));
        i += 1;
    }
    "unknown".to_owned()
}

/// The number, or zero.
pub open spec fn or_zero(n: Option<i64>) -> i64 {
    match n {
        Some(x) => x,
        None => 0,
    }
}

/// The repository of a hit; the nil UUID where it is not named by one.
pub open spec fn repo_of(hit: HybridHit) -> Uuid {
    match parsed(hit.repo_id@) {
        Some(id) => id,
        None => Uuid { bits: 0 },
    }
}

impl Citation {
    /// Whether this is where `hit` is.
    pub open spec fn cites(&self, hit: HybridHit, commits: Seq<RepoCommit>) -> bool {
        &&& self.repo_id == repo_of(hit)
        &&& self.file_path@ == match hit.source_path {
            Some(p) => p@,
            None => Seq::empty(),
        }
        &&& self.line_start == or_zero(hit.line_start)
        &&& self.line_end == or_zero(hit.line_end)
        &&& self.commit_sha@ == commit_of(commits, self.repo_id)
        &&& self.score == hit.score
    }
}

/// Whether `citations` are where `hits` are, in their order.
pub open spec fn all_cited(citations: Seq<Citation>, hits: Seq<HybridHit>, commits: Seq<RepoCommit>) -> bool {
    &&& citations.len() == hits.len()
    &&& forall|i: int| 0 <= i < hits.len() ==> (#[trigger] citations[i]).cites(hits[i], commits)
}

/// Where the hits are.
pub fn cite(hits: Vec<HybridHit>, commits: &Vec<RepoCommit>) -> (citations: Vec<Citation>)
    ensures
        all_cited(citations@, hits@, commits@),
        citations@.len() == hits@.len(),
        forall|i: int|
            0 <= i < hits@.len() ==> {
                let (c, hit) = (#[trigger] citations@[i], hits@[i]);
                &&& uuid_read(hit.repo_id@) matches Some(bits) ==> c.repo_id.bits == bits
                &&& uuid_read(hit.repo_id@) is None ==> c.repo_id.bits == 0
                &&& hit.source_path matches Some(p) ==> c.file_path@ == p@
                &&& hit.source_path is None ==> c.file_path@.len() == 0
                &&& c.line_start == hit.line_start.unwrap_or(0)
                &&& c.line_end == hit.line_end.unwrap_or(0)
                &&& c.commit_sha@ == commit_of(commits@, c.repo_id)
                &&& c.score == hit.score
            },
{
    let mut citations: Vec<Citation> = Vec::new();
    for hit in it: hits
        invariant
            it.seq() == hits@,
            citations@.len() == it.index(),
            forall|i: int| 0 <= i < citations@.len() ==> (#[trigger] citations@[i]).cites(hits@[i], commits@),
    {
        let repo_id = match Uuid::parse(hit.repo_id.as_str()) {
            Some(id) => id,
            None => Uuid { bits: 0 },
        };
        let commit_sha = find_commit(commits, repo_id);
        citations.push(
            Citation {
                repo_id,
                file_path: match hit.source_path {
                    Some(p) => p,
                    None => String::new(),
                },
                line_start: match hit.line_start {
                    Some(n) => n,
                    None => 0,
                },
                line_end: match hit.line_end {
                    Some(n) => n,
                    None => 0,
                },
                commit_sha,
                score: hit.score,
            },
        );
    }
    citations
}

/// A hit of a search for a query as it stands.
#[derive(Debug)]
pub struct DenseHit {
    pub fqn: String,
    pub repo_id: String,
    /// The score, as JSON has it.
    pub score: serde_json::Value,
}

/// Whether two colons stand at `i`.
pub open spec fn colons_at(s: Seq<char>, i: int) -> bool {
    i + 1 < s.len() && s[i] == ':' && s[i + 1] == ':'
}

/// The first place from `i` on with two colons; the end where there is none.
pub open spec fn path_end(s: Seq<char>, i: int) -> int
    decreases s.len() - i,
{
    if i >= s.len() {
        s.len() as int
    } else if colons_at(s, i) {
        i
    } else {
        path_end(s, i + 1)
    }
}

/// The crate that a fully qualified name starts with.
pub open spec fn crate_of(fqn: Seq<char>) -> Seq<char> {
    fqn.take(path_end(fqn, 0))
}

/// The crate that a fully qualified name starts with.
pub fn crate_name(fqn: &str) -> (name: String)
    ensures
        name@ == crate_of(fqn@),
        name@ == fqn@.subrange(0, name@.len() as int),
        name@.len() < fqn@.len() ==> name@.len() + 1 < fqn@.len() && fqn@[name@.len() as int] == ':'
            && fqn@[(name@.len() + 1) as int] == ':',
        forall|i: int| 0 <= i < name@.len() && i + 1 < fqn@.len() ==> !(#[trigger] fqn@[i] == ':' && fqn@[i + 1] == ':'),
{
    let chars = chars_of(fqn);
    let n: usize = chars.len();
    let mut i: usize = 0;
    while i < n
        invariant
            i <= n == chars@.len(),
            chars@ == fqn@,
            path_end(chars@, 0) == path_end(chars@, i as int),
            forall|j: int| 0 <= j < i && j + 1 < fqn@.len() ==> !(#[trigger] fqn@[j] == ':' && fqn@[j + 1] == ':'),
        decreases n - i,
    {
        if n - i > 1 && chars[i] == ':' && chars[i + 1] == ':' {
            assert(chars@.subrange(0, i as int) =~= chars@.take(i as int));
            return string_between(&chars, 0, i);
        }
        i += 1;
    }
    assert(chars@.subrange(0, n as int) =~= chars@.take(n as int));
    string_between(&chars, 0, n)
}

/// A hit in JSON.
pub open spec fn dense_json(hit: DenseHit) -> Json {
    Json::Object(
        map![
            "fqn"@ => Json::Str(hit.fqn@),
            "crate_name"@ => Json::Str(crate_of(hit.fqn@)),
            "repo_id"@ => Json::Str(hit.repo_id@),
            "score"@ => json_of(hit.score),
        ],
    )
}

impl DenseHit {
    /// The hit in JSON.
    pub fn to_json(self) -> (v: serde_json::Value)
        ensures
            json_of(v) == dense_json(self),
            json_of(v) == Json::Object(
                map![
                    "fqn"@ => Json::Str(self.fqn@),
                    "crate_name"@ => Json::Str(crate_of(self.fqn@)),
                    "repo_id"@ => Json::Str(self.repo_id@),
                    "score"@ => json_of(self.score),
                ],
            ),
    {
        let name = crate_name(self.fqn.as_str());
        let v = json::with(json::object(), "fqn", json::string(self.fqn.as_str()));
        let v = json::with(v, "crate_name", json::string(name.as_str()));
        let v = json::with(v, "repo_id", json::string(self.repo_id.as_str()));
        json::with(v, "score", self.score)
    }
}

/// The indented text of a document.
fn pretty_text(v: &serde_json::Value) -> (s: String)
    ensures
        s@ == json_pretty(json_of(*v)),
{
    match json::pretty(v) {
        Ok(s) => s,
        Err(_) => String::new(),
    }
}

/// The text of all hits.
pub open spec fn dense_document(hits: Seq<DenseHit>) -> Json {
    Json::Array(hits.map_values(|h: DenseHit| dense_json(h)))
}

/// The text of all hits.
pub fn dense_text(hits: Vec<DenseHit>) -> (s: String)
    ensures
        s@ == json_pretty(dense_document(hits@)),
{
    let mut items: Vec<serde_json::Value> = Vec::new();
    for hit in it: hits
        invariant
            it.seq() == hits@,
            items@.len() == it.index(),
            forall|i: int| 0 <= i < items@.len() ==> json_of(#[trigger] items@[i]) == dense_json(hits@[i]),
    {
        items.push(hit.to_json());
    }
    let v = json::array(items);
    assert(items@.map_values(|x: serde_json::Value| json_of(x)) =~= hits@.map_values(|h: DenseHit| dense_json(h)));
    pretty_text(&v)
}

/// What a tool hands back.
#[derive(Debug)]
pub enum ToolOutput {
    Text(String),
    /// These, as an indented JSON array.
    Citations(Vec<Citation>),
}

/// What a search needs.
#[derive(Debug)]
pub struct SearchSettings {
    pub limits: SearchLimits,
    /// Whether there is a vector store.
    pub has_vector_store: bool,
    /// Where the embedding service is.
    pub ollama_url: Option<String>,
    /// Whether to search for several forms of the query.
    pub hybrid: bool,
}

/// What was learnt last.
#[derive(Debug)]
pub enum SearchProgress {
    /// Nothing yet.
    Begin,
    /// Whether the repository is the tenant's and not archived.
    RepoChecked(bool),
    /// Whether there is an embedding of the query.
    Embedded(bool),
    /// The forms of the query.
    Expanded(Vec<String>),
    /// Whether there is an embedding of every form.
    VariantsEmbedded(bool),
    /// The hits over all forms, unless the search failed.
    HybridHits(Option<Vec<HybridHit>>),
    /// The commits of the repositories.
    Commits(Vec<HybridHit>, Vec<RepoCommit>),
    /// The hits of the query.
    DenseHits(Vec<DenseHit>),
}

/// What to do next.
#[derive(Debug)]
pub enum SearchAction {
    /// Look the repository up, among those of the tenant that are not archived.
    CheckRepo { repo_id: Uuid, tenant_id: Uuid },
    /// Have the query embedded.
    Embed { query: String },
    /// Look for other forms of the query, as the tenant's settings say.
    Expand { tenant_id: Uuid, query: String },
    /// Have the forms embedded that are not the query.
    EmbedVariants(Vec<Variant>),
    /// Search for all forms, within one repository if there is one.
    SearchHybrid { tenant_id: Uuid, limit: u32, within: Option<Uuid> },
    /// Search for the query, within one repository if there is one.
    SearchDense { tenant_id: Uuid, limit: u32, within: Option<Uuid> },
    /// Read the latest commits of the repositories.
    FetchCommits { repo_ids: Vec<Uuid>, hits: Vec<HybridHit> },
    /// Hand back.
    Done(ToolOutput),
    /// Fail.
    Fail(AppError),
}

/// What is wrong with a search before anything is looked up.
pub open spec fn search_flaw(settings: SearchSettings, args: Json) -> Option<AppError> {
    if !has_query(args) {
        Some(AppError::InvalidInput)
    } else if !settings.has_vector_store || settings.ollama_url is None {
        Some(AppError::ServiceUnavailable)
    } else {
        None
    }
}

/// The next step of `search_items`. Only repositories of the tenant's are searched
/// by name; whatever the services cannot do makes the tool unavailable.
pub fn dispatch_search_items(
    settings: &SearchSettings,
    tenant_id: Uuid,
    args: &serde_json::Value,
    progress: SearchProgress,
) -> (action: SearchAction)
    requires
        settings.limits.max_limit >= 1,
    ensures
        ({
            let j = json_of(*args);
            let repo_id = uuid_field(j, "repo_id"@);
            match search_flaw(*settings, j) {
                Some(e) => action == SearchAction::Fail(e),
                None => match progress {
                    SearchProgress::Begin => match repo_id {
                        Some(id) => action == (SearchAction::CheckRepo { repo_id: id, tenant_id }),
                        None => action matches SearchAction::Embed { query } && str_field(j, "query"@) == Some(query@),
                    },
                    SearchProgress::RepoChecked(false) => action == SearchAction::Fail(AppError::NotFound),
                    SearchProgress::RepoChecked(true) => action matches SearchAction::Embed { query } && str_field(
                        j,
                        "query"@,
                    ) == Some(query@),
                    SearchProgress::Embedded(false) | SearchProgress::VariantsEmbedded(false)
                    | SearchProgress::HybridHits(None) => action == SearchAction::Fail(AppError::ServiceUnavailable),
                    SearchProgress::Embedded(true) => if settings.hybrid {
                        action matches SearchAction::Expand { tenant_id: t, query } && t == tenant_id && str_field(
                            j,
                            "query"@,
                        ) == Some(query@)
                    } else {
                        action matches SearchAction::SearchDense { tenant_id: t, limit, within: r } && t == tenant_id
                            && limit == limit_of(j, settings.limits) && r == repo_id
                    },
                    SearchProgress::Expanded(texts) => action matches SearchAction::EmbedVariants(variants)
                        && variants_of(variants@, texts@, str_field(j, "query"@)->Some_0),
                    SearchProgress::VariantsEmbedded(true) => action matches SearchAction::SearchHybrid {
                        tenant_id: t,
                        limit,
                        within: r,
                    } && t == tenant_id && limit == limit_of(j, settings.limits) && r == repo_id,
                    SearchProgress::HybridHits(Some(hits)) => action matches SearchAction::FetchCommits {
                        repo_ids,
                        hits: kept,
                    } && kept == hits && repo_ids@ == repos_hit(hits@),
                    SearchProgress::Commits(hits, commits) => action matches SearchAction::Done(
                        ToolOutput::Citations(citations),
                    ) && all_cited(citations@, hits@, commits@),
                    SearchProgress::DenseHits(hits) => action matches SearchAction::Done(ToolOutput::Text(text)) && text@
                        == json_pretty(dense_document(hits@)),
                },
            }
        }),
{
    let search = match search_request(args, settings.limits) {
        Err(e) => return SearchAction::Fail(e),
        Ok(s) => s,
    };
    if !settings.has_vector_store || settings.ollama_url.is_none() {
        return SearchAction::Fail(AppError::ServiceUnavailable);
    }
    match progress {
        SearchProgress::Begin => match search.repo_id {
            Some(repo_id) => SearchAction::CheckRepo { repo_id, tenant_id },
            None => SearchAction::Embed { query: search.query },
        },
        SearchProgress::RepoChecked(false) => SearchAction::Fail(AppError::NotFound),
        SearchProgress::RepoChecked(true) => SearchAction::Embed { query: search.query },
        SearchProgress::Embedded(false) => SearchAction::Fail(AppError::ServiceUnavailable),
        SearchProgress::Embedded(true) => if settings.hybrid {
            SearchAction::Expand { tenant_id, query: search.query }
        } else {
            SearchAction::SearchDense { tenant_id, limit: search.limit, within: search.repo_id }
        },
        SearchProgress::Expanded(texts) => SearchAction::EmbedVariants(query_variants(texts, search.query.as_str())),
        SearchProgress::VariantsEmbedded(false) => SearchAction::Fail(AppError::ServiceUnavailable),
        SearchProgress::VariantsEmbedded(true) => SearchAction::SearchHybrid {
            tenant_id,
            limit: search.limit,
            within: search.repo_id,
        },
        SearchProgress::HybridHits(None) => SearchAction::Fail(AppError::ServiceUnavailable),
        SearchProgress::HybridHits(Some(hits)) => SearchAction::FetchCommits { repo_ids: hit_repos(&hits), hits },
        SearchProgress::Commits(hits, commits) => SearchAction::Done(ToolOutput::Citations(cite(hits, &commits))),
        SearchProgress::DenseHits(hits) => SearchAction::Done(ToolOutput::Text(dense_text(hits))),
    }
}

/// A symbol of a repository.
#[derive(Debug)]
pub struct Symbol {
    /// Its ID, as JSON has it.
    pub id: serde_json::Value,
    pub fqn: String,
    pub kind: String,
    pub source_path: Option<String>,
    pub line_start: Option<i64>,
    pub line_end: Option<i64>,
    pub source_text: Option<String>,
    pub blob_ref: Option<String>,
}

/// The number, as a mathematical one.
pub open spec fn widened(n: Option<i64>) -> Option<int> {
    match n {
        Some(x) => Some(x as int),
        None => None,
    }
}

/// A symbol in JSON.
pub open spec fn symbol_json(s: Symbol, repo_id: Uuid) -> Json {
    Json::Object(
        map![
            "id"@ => json_of(s.id),
            "fqn"@ => Json::Str(s.fqn@),
            "kind"@ => Json::Str(s.kind@),
            "repo_id"@ => Json::Str(repo_id.text()),
            "source_path"@ => opt_str_json(s.source_path),
            "line_start"@ => opt_int_json(widened(s.line_start)),
            "line_end"@ => opt_int_json(widened(s.line_end)),
            "source_text"@ => opt_str_json(s.source_text),
            "blob_ref"@ => opt_str_json(s.blob_ref),
        ],
    )
}

impl Symbol {
    /// The symbol in JSON.
    pub fn to_json(self, repo_id: &Uuid) -> (v: serde_json::Value)
        ensures
            json_of(v) == symbol_json(self, *repo_id),
            json_of(v) matches Json::Object(m) && {
                &&& m["id"@] == json_of(self.id)
                &&& m["fqn"@] == Json::Str(self.fqn@)
                &&& m["kind"@] == Json::Str(self.kind@)
                &&& m["repo_id"@] == Json::Str(repo_id.text())
                &&& m["source_path"@] == match self.source_path {
                    Some(s) => Json::Str(s@),
                    None => Json::Null,
                }
                &&& m["line_start"@] == match self.line_start {
                    Some(n) => Json::Int(n as int),
                    None => Json::Null,
                }
                &&& m["line_end"@] == match self.line_end {
                    Some(n) => Json::Int(n as int),
                    None => Json::Null,
                }
                &&& m["source_text"@] == match self.source_text {
                    Some(s) => Json::Str(s@),
                    None => Json::Null,
                }
                &&& m["blob_ref"@] == match self.blob_ref {
                    Some(s) => Json::Str(s@),
                    None => Json::Null,
                }
            },
    {
        proof {
            reveal_strlit("id");
            reveal_strlit("fqn");
            reveal_strlit("kind");
            reveal_strlit("repo_id");
            reveal_strlit("source_path");
            reveal_strlit("line_start");
            reveal_strlit("line_end");
            reveal_strlit("source_text");
            reveal_strlit("blob_ref");
            assert("id"@.len() == 2 && "fqn"@.len() == 3 && "kind"@.len() == 4 && "repo_id"@.len() == 7);
            assert("source_path"@.len() == 11 && "line_start"@.len() == 10 && "line_end"@.len() == 8);
            assert("source_text"@.len() == 11 && "blob_ref"@.len() == 8);
            assert("source_path"@[7] == 'p' && "source_text"@[7] == 't');
            assert("line_end"@[0] == 'l' && "blob_ref"@[0] == 'b');
        }
        let v = json::with(json::object(), "id", self.id);
        let v = json::with(v, "fqn", json::string(self.fqn.as_str()));
        let v = json::with(v, "kind", json::string(self.kind.as_str()));
        let v = json::with(v, "repo_id", json::uuid(repo_id));
        let v = json::with(v, "source_path", json::opt_string(&self.source_path));
        let v = json::with(v, "line_start", json::opt_number(&self.line_start));
        let v = json::with(v, "line_end", json::opt_number(&self.line_end));
        let v = json::with(v, "source_text", json::opt_string(&self.source_text));
        json::with(v, "blob_ref", json::opt_string(&self.blob_ref))
    }
}

/// What was learnt last.
#[derive(Debug)]
pub enum ItemProgress {
    /// Nothing yet.
    Begin,
    /// Whether the repository is the tenant's and not archived.
    RepoChecked(bool),
    /// The symbol with that name, if there is one.
    Found(Option<Symbol>),
}

/// What to do next.
#[derive(Debug)]
pub enum ItemAction {
    /// Look the repository up, among those of the tenant that are not archived.
    CheckRepo { repo_id: Uuid, tenant_id: Uuid },
    /// Look the symbol up.
    FindSymbol { tenant_id: Uuid, repo_id: Uuid, fqn: String },
    /// Hand back.
    Done(ToolOutput),
    /// Fail.
    Fail(AppError),
}

/// The next step of `get_item`.
pub fn dispatch_get_item(tenant_id: Uuid, args: &serde_json::Value, progress: ItemProgress) -> (action: ItemAction)
    ensures
        match (uuid_field(json_of(*args), "repo_id"@), str_field(json_of(*args), "fqn"@)) {
            (Some(repo_id), Some(name)) => match progress {
                ItemProgress::Begin => action == (ItemAction::CheckRepo { repo_id, tenant_id }),
                ItemProgress::RepoChecked(false) => action == ItemAction::Fail(AppError::NotFound),
                ItemProgress::RepoChecked(true) => action matches ItemAction::FindSymbol {
                    tenant_id: t,
                    repo_id: r,
                    fqn,
                } && t == tenant_id && r == repo_id && fqn@ == name,
                ItemProgress::Found(None) => action matches ItemAction::Done(ToolOutput::Text(text)) && text@
                    == "No symbol found for the given repo_id and fqn."@,
                ItemProgress::Found(Some(s)) => action matches ItemAction::Done(ToolOutput::Text(text)) && text@
                    == json_pretty(symbol_json(s, repo_id)),
            },
            _ => action == ItemAction::Fail(AppError::InvalidInput),
        },
{
    let repo_id = match find_uuid(args, "repo_id") {
        None => return ItemAction::Fail(AppError::InvalidInput),
        Some(id) => id,
    };
    let fqn = match json::text_field(args, "fqn") {
        None => return ItemAction::Fail(AppError::InvalidInput),
        Some(s) => s.to_owned(),
    };
    match progress {
        ItemProgress::Begin => ItemAction::CheckRepo { repo_id, tenant_id },
        ItemProgress::RepoChecked(false) => ItemAction::Fail(AppError::NotFound),
        ItemProgress::RepoChecked(true) => ItemAction::FindSymbol { tenant_id, repo_id, fqn },
        ItemProgress::Found(None) => ItemAction::Done(
            ToolOutput::Text("No symbol found for the given repo_id and fqn.".to_owned()),
        ),
        ItemProgress::Found(Some(s)) => ItemAction::Done(ToolOutput::Text(pretty_text(&s.to_json(&repo_id)))),
    }
}

/// Every repository gets the commit that is listed for it: where no repository is
/// listed twice, the one found for a listed repository is its own, wherever it stands
/// in the list, and one that is not listed has none.
pub proof fn commits_are_found(commits: Seq<RepoCommit>, id: Uuid)
    requires
        forall|i: int, j: int| 0 <= i < j < commits.len() ==> commits[i].repo_id != commits[j].repo_id,
    ensures
        forall|i: int|
            0 <= i < commits.len() ==> commit_of(commits, (#[trigger] commits[i]).repo_id) == commits[i].commit_sha@,
        (forall|i: int| 0 <= i < commits.len() ==> (#[trigger] commits[i]).repo_id != id) ==> commit_of(commits, id)
            == "unknown"@,
    decreases commits.len(),
{
    if commits.len() > 0 {
        let rest = commits.skip(1);
        assert forall|i: int, j: int| 0 <= i < j < rest.len() implies rest[i].repo_id != rest[j].repo_id by {
            assert(rest[i] == commits[i + 1] && rest[j] == commits[j + 1]);
        }
        commits_are_found(rest, id);
        assert forall|i: int| 0 <= i < commits.len() implies commit_of(commits, (#[trigger] commits[i]).repo_id)
            == commits[i].commit_sha@ by {
            if i > 0 {
                assert(rest[i - 1] == commits[i]);
            }
        }
        if forall|i: int| 0 <= i < commits.len() ==> (#[trigger] commits[i]).repo_id != id {
            assert(commits[0].repo_id != id);
            assert forall|i: int| 0 <= i < rest.len() implies (#[trigger] rest[i]).repo_id != id by {
                assert(rest[i] == commits[i + 1]);
            }
        }
    }
}

/// A search is refused before anything is looked up if there is nothing to search for,
/// and if the services are not there; otherwise it is not.
pub proof fn searches_need_a_query_and_services(settings: SearchSettings, args: Json)
    ensures
        match args {
            Json::Object(m) => if m.contains_key("query"@) && (m["query"@] matches Json::Str(q) && trimmed(q).len() > 0) {
                search_flaw(settings, args) == if settings.has_vector_store && settings.ollama_url is Some {
                    None::<AppError>
                } else {
                    Some(AppError::ServiceUnavailable)
                }
            } else {
                search_flaw(settings, args) == Some(AppError::InvalidInput)
            },
            _ => search_flaw(settings, args) == Some(AppError::InvalidInput),
        },
{
}

/// The document of a search for the query has one object for each hit, in order, with
/// the hit's own name, repository and score, and the crate that the name starts with.
pub proof fn documents_show_every_hit(hits: Seq<DenseHit>, i: int)
    requires
        0 <= i < hits.len(),
    ensures
        dense_document(hits) matches Json::Array(items) && items.len() == hits.len() && items[i] == Json::Object(
            map![
                "fqn"@ => Json::Str(hits[i].fqn@),
                "crate_name"@ => Json::Str(crate_of(hits[i].fqn@)),
                "repo_id"@ => Json::Str(hits[i].repo_id@),
                "score"@ => json_of(hits[i].score),
            ],
        ),
{
}

/// The repositories of hits stand in the order of their first hits: of two, the one
/// before has a hit before every hit of the other.
pub proof fn repos_stand_in_the_order_of_hits(hits: Seq<HybridHit>, a: int, b: int)
    requires
        0 <= a < b < repos_hit(hits).len(),
    ensures
        exists|i: int|
            0 <= i < hits.len() && uuid_read((#[trigger] hits[i]).repo_id@) == Some(repos_hit(hits)[a].bits) && forall|
                j: int,
            |
                0 <= j <= i ==> uuid_read((#[trigger] hits[j]).repo_id@) != Some(repos_hit(hits)[b].bits),
    decreases hits.len(),
{
    let rest = hits.drop_last();
    let before = repos_hit(rest);
    let ids = repos_hit(hits);
    if b < before.len() {
        repos_stand_in_the_order_of_hits(rest, a, b);
        let i = choose|i: int|
            0 <= i < rest.len() && uuid_read((#[trigger] rest[i]).repo_id@) == Some(before[a].bits) && forall|j: int|
                0 <= j <= i ==> uuid_read((#[trigger] rest[j]).repo_id@) != Some(before[b].bits);
        assert(hits[i] == rest[i]);
        assert forall|j: int| 0 <= j <= i implies uuid_read((#[trigger] hits[j]).repo_id@) != Some(ids[b].bits) by {
            assert(hits[j] == rest[j]);
        }
    } else {
        lemma_repos_hit(rest);
        let i = choose|i: int| 0 <= i < rest.len() && uuid_read((#[trigger] rest[i]).repo_id@) == Some(before[a].bits);
        assert(hits[i] == rest[i]);
        assert forall|j: int| 0 <= j <= i implies uuid_read((#[trigger] hits[j]).repo_id@) != Some(ids[b].bits) by {
            assert(hits[j] == rest[j]);
            if uuid_read(hits[j].repo_id@) == Some(ids[b].bits) {
                assert(before.contains(ids[b]));
            }
        }
    }
}

proof fn lemma_repos_hit(hits: Seq<HybridHit>)
    ensures
        forall|i: int|
            0 <= i < hits.len() ==> (uuid_read((#[trigger] hits[i]).repo_id@) matches Some(bits) ==> repos_hit(
                hits,
            ).contains(Uuid { bits })),
        forall|k: int|
            0 <= k < repos_hit(hits).len() ==> exists|i: int|
                0 <= i < hits.len() && uuid_read((#[trigger] hits[i]).repo_id@) == Some(
                    (#[trigger] repos_hit(hits)[k]).bits,
                ),
    decreases hits.len(),
{
    if hits.len() > 0 {
        let rest = hits.drop_last();
        lemma_repos_hit(rest);
        let before = repos_hit(rest);
        let ids = repos_hit(hits);
        assert forall|i: int| 0 <= i < hits.len() implies (uuid_read((#[trigger] hits[i]).repo_id@) matches Some(bits)
            ==> ids.contains(Uuid { bits })) by {
            if uuid_read(hits[i].repo_id@) is Some {
                let id = Uuid { bits: uuid_read(hits[i].repo_id@)->0 };
                if i < rest.len() {
                    assert(rest[i] == hits[i]);
                    let k = choose|k: int| 0 <= k < before.len() && before[k] == id;
                    assert(ids[k] == id);
                } else if !before.contains(id) {
                    assert(ids[ids.len() - 1] == id);
                }
            }
        }
        assert forall|k: int| 0 <= k < ids.len() implies exists|i: int|
            0 <= i < hits.len() && uuid_read((#[trigger] hits[i]).repo_id@) == Some((#[trigger] ids[k]).bits) by {
            if k < before.len() {
                let i = choose|i: int|
                    0 <= i < rest.len() && uuid_read((#[trigger] rest[i]).repo_id@) == Some(before[k].bits);
                assert(hits[i] == rest[i]);
            } else {
                assert(uuid_read(hits[hits.len() - 1].repo_id@) == Some(ids[k].bits));
            }
        }
    }
}

} // verus!
