//! The decisions behind the on-disk response cache: which files expire, which
//! files go when the cache is over its size bound, which files may be read,
//! and how cache files are named. Reading and writing the files themselves is
//! left to the caller.
use vstd::prelude::*;
use crate::output::OutputFormat;
use crate::text::{chars_of, dec_int, dec_nat, push_char, push_decimal_i64, push_decimal_u64, push_str, push_chars, str_eq};

verus! {

#[verifier::external_type_specification]
#[verifier::external_body]
pub struct ExPathBuf(std::path::PathBuf);

/// `PathBuf::clone` gives an equal path.
pub assume_specification[ <std::path::PathBuf as Clone>::clone ](p: &std::path::PathBuf) -> (r:
    std::path::PathBuf)
    ensures
        r == *p,
;

/// Largest cache file, in bytes, that may be read back.
pub const MAX_CACHE_READ_BYTES: u64 = 10485760;

/// Size bound, in bytes, of a cache that is not configured otherwise (100 MiB).
pub const DEFAULT_CACHE_MAX_BYTES: u64 = 104857600;

/// How many files the start-up maintenance removed.
#[derive(Debug, Clone, Copy, PartialEq, Eq, Structural)]
pub struct CacheMaintenance {
    pub retention_deleted: usize,
    pub size_deleted: usize,
}

/// Where cache files live, how large the cache may grow, and whether
/// responses are written to it at all.
#[derive(Debug)]
pub struct CacheStore {
    root: std::path::PathBuf,
    max_bytes: u64,
    writes_enabled: bool,
}

impl CacheStore {
    /// The cache directory.
    pub closed spec fn root_path(&self) -> std::path::PathBuf {
        self.root
    }

    /// The size bound in bytes.
    pub closed spec fn size_bound(&self) -> u64 {
        self.max_bytes
    }

    /// Whether responses are written to the cache.
    pub closed spec fn writes_on(&self) -> bool {
        self.writes_enabled
    }

    /// A cache rooted at `root`, bounded to `max_bytes`.
    pub fn new(root: std::path::PathBuf, max_bytes: u64, writes_enabled: bool) -> (r: Self)
        ensures
            r.root_path() == root,
            r.size_bound() == max_bytes,
            r.writes_on() == writes_enabled,
    {
        CacheStore { root, max_bytes, writes_enabled }
    }

    /// A cache at `root` that is never written to, with the default bound.
    pub fn disabled(root: std::path::PathBuf) -> (r: Self)
        ensures
            r.root_path() == root,
            r.size_bound() == DEFAULT_CACHE_MAX_BYTES,
            !r.writes_on(),
    {
        Self::new(root, DEFAULT_CACHE_MAX_BYTES, false)
    }

    /// The cache directory.
    pub fn root(&self) -> (r: &std::path::PathBuf)
        ensures
            *r == self.root_path(),
    {
        &self.root
    }

    /// The size bound in bytes.
    pub fn max_bytes(&self) -> (r: u64)
        ensures
            r == self.size_bound(),
    {
        self.max_bytes
    }

    /// Whether responses are written to the cache.
    pub fn writes_enabled(&self) -> (r: bool)
        ensures
            r == self.writes_on(),
    {
        self.writes_enabled
    }
}

impl Clone for CacheStore {
    /// A copy of the store: same directory, bound and write flag.
    fn clone(&self) -> (r: Self)
        ensures
            r == *self,
    {
        CacheStore {
            root: self.root.clone(),
            max_bytes: self.max_bytes,
            writes_enabled: self.writes_enabled,
        }
    }
}

/// Where the default cache directory comes from, in order of preference.
#[derive(Debug, Clone, PartialEq, Eq)]
pub enum CacheDirChoice {
    /// The explicit override directory, used as is.
    Override(String),
    /// `<XDG cache home>/datadog-mcp`.
    XdgCache(String),
    /// `<home>/.cache/datadog-mcp`.
    HomeCache(String),
    /// `./datadog_cache` in the working directory.
    Legacy,
}

/// Picks the default cache directory from the override variable, the XDG
/// cache home and the home directory, in that order of preference.
pub fn choose_cache_dir(
    override_dir: Option<String>,
    xdg_cache_home: Option<String>,
    home: Option<String>,
) -> (r: CacheDirChoice)
    ensures
        r == (match override_dir {
            Some(d) => CacheDirChoice::Override(d),
            None => match xdg_cache_home {
                Some(d) => CacheDirChoice::XdgCache(d),
                None => match home {
                    Some(d) => CacheDirChoice::HomeCache(d),
                    None => CacheDirChoice::Legacy,
                },
            },
        }),
{
    match override_dir {
        Some(d) => CacheDirChoice::Override(d),
        None => match xdg_cache_home {
            Some(d) => CacheDirChoice::XdgCache(d),
            None => match home {
                Some(d) => CacheDirChoice::HomeCache(d),
                None => CacheDirChoice::Legacy,
            },
        },
    }
}

/// Whether a file extension marks a cache file (`json` or `toon`).
pub open spec fn is_cache_ext(ext: Option<Seq<char>>) -> bool {
    ext == Some("json"@) || ext == Some("toon"@)
}

/// Whether a file extension marks a cache file.
pub fn is_cache_extension(ext: Option<&str>) -> (r: bool)
    ensures
        r == is_cache_ext(match ext {
            Some(e) => Some(e@),
            None => None,
        }),
{
    match ext {
        Some(e) => str_eq(e, "json") || str_eq(e, "toon"),
        None => false,
    }
}

/// What a cache file is written as, it is read back as: the extension of
/// each format is a cache extension, and it selects that same format both
/// when a file is read back and when the format is named.
pub proof fn lemma_extension_round_trip(f: OutputFormat)
    ensures
        is_cache_ext(Some(crate::output::format_extension(f))),
        crate::output::format_extension(f) == "json"@ <==> f == OutputFormat::Json,
        crate::output::format_extension(f) == "toon"@ <==> f == OutputFormat::Toon,
        crate::output::format_named(crate::output::format_extension(f)) == Some(f),
{
    reveal_strlit("json");
    reveal_strlit("toon");
    assert("json"@[0] != "toon"@[0]);
}

/// Seconds of retention for `hours`, saturating at `i64::MAX`.
pub open spec fn retention_seconds(hours: u64) -> int {
    if hours * 3600 > i64::MAX {
        i64::MAX as int
    } else {
        hours * 3600
    }
}

/// The modification time before which cache files count as expired:
/// `now` minus the retention, saturating at `i64::MIN`.
pub open spec fn cutoff_time(now: i64, hours: u64) -> int {
    if now - retention_seconds(hours) < i64::MIN {
        i64::MIN as int
    } else {
        now - retention_seconds(hours)
    }
}

/// Computes the expiry cutoff for files older than `older_than_hours`.
pub fn retention_cutoff(now: i64, older_than_hours: u64) -> (r: i64)
    ensures
        r == cutoff_time(now, older_than_hours),
{
    let retention: i64 = if older_than_hours > 2562047788015215u64 {
        9223372036854775807i64
    } else {
        (older_than_hours * 3600) as i64
    };
    if now < -9223372036854775808i64 + retention {
        -9223372036854775808i64
    } else {
        now - retention
    }
}

/// Whether a file modified `modified_secs` after the epoch is older than the
/// cutoff (modification times beyond `i64::MAX` count as `i64::MAX`).
pub fn is_expired(modified_secs: u64, cutoff: i64) -> (r: bool)
    ensures
        r == ((if modified_secs > i64::MAX {
            i64::MAX as int
        } else {
            modified_secs as int
        }) < cutoff),
{
    let m: i64 = if modified_secs > 9223372036854775807u64 {
        9223372036854775807i64
    } else {
        modified_secs as i64
    };
    m < cutoff
}

/// A cache file as the size bound sees it.
#[derive(Debug, Clone, Copy, PartialEq, Eq, Structural)]
pub struct CacheFile {
    /// Size in bytes.
    pub size: u64,
    /// Modification time in nanoseconds after the epoch.
    pub modified: u128,
}

/// File `a` goes before file `b`: it is older, or as old and listed earlier.
pub open spec fn goes_before(files: Seq<CacheFile>, a: usize, b: usize) -> bool {
    ||| files[a as int].modified < files[b as int].modified
    ||| files[a as int].modified == files[b as int].modified && a < b
}

/// Sum of all file sizes.
pub open spec fn total_size(files: Seq<CacheFile>) -> nat
    decreases files.len(),
{
    if files.len() == 0 {
        0
    } else {
        total_size(files.drop_last()) + files.last().size as nat
    }
}

/// Sum of the sizes of the listed files.
pub open spec fn listed_size(files: Seq<CacheFile>, listed: Seq<usize>) -> nat
    decreases listed.len(),
{
    if listed.len() == 0 {
        0
    } else {
        listed_size(files, listed.drop_last()) + files[listed.last() as int].size as nat
    }
}

/// Bytes counted as left after deleting the listed files: the total, capped
/// at `u64::MAX`, less their sizes, and never below zero.
pub open spec fn bytes_left(files: Seq<CacheFile>, deleted: Seq<usize>) -> int {
    let start: int = if total_size(files) > u64::MAX {
        u64::MAX as int
    } else {
        total_size(files) as int
    };
    if start - listed_size(files, deleted) < 0 {
        0
    } else {
        start - listed_size(files, deleted)
    }
}

/// `order` lists every file exactly once, oldest first.
pub open spec fn oldest_first_order(files: Seq<CacheFile>, order: Seq<usize>) -> bool {
    &&& order.len() == files.len()
    &&& forall|i: int| 0 <= i < order.len() ==> #[trigger] order[i] < files.len()
    &&& forall|x: usize| x < files.len() ==> #[trigger] order.contains(x)
    &&& forall|i: int, j: int|
        0 <= i < j < order.len() ==> goes_before(files, #[trigger] order[i], #[trigger] order[j])
}

/// The indices of `files`, oldest first; files of the same age keep their order.
pub fn oldest_first(files: &Vec<CacheFile>) -> (r: Vec<usize>)
    ensures
        oldest_first_order(files@, r@),
{
    let n = files.len();
    let mut order: Vec<usize> = Vec::new();
    let mut idx: usize = 0;
    while idx < n
        invariant
            idx <= n == files@.len(),
            order@.len() == idx,
            forall|i: int| 0 <= i < order@.len() ==> #[trigger] order@[i] < idx,
            forall|x: usize| x < idx ==> #[trigger] order@.contains(x),
            forall|i: int, j: int|
                0 <= i < j < order@.len() ==> goes_before(
                    files@,
                    #[trigger] order@[i],
                    #[trigger] order@[j],
                ),
        decreases n - idx,
    {
        let m = files[idx].modified;
        let mut pos: usize = 0;
        while pos < order.len() && files[order[pos]].modified <= m
            invariant
                pos <= order@.len(),
                idx < n == files@.len(),
                m == files@[idx as int].modified,
                forall|i: int| 0 <= i < order@.len() ==> #[trigger] order@[i] < idx,
                forall|j: int| 0 <= j < pos ==> files@[#[trigger] order@[j] as int].modified <= m,
            decreases order@.len() - pos,
        {
            pos = pos + 1;
        }
        let ghost old_order = order@;
        proof {
            assert forall|j: int| pos <= j < old_order.len() implies files@[
                #[trigger] old_order[j] as int].modified > m by {
                if j > pos {
                    assert(goes_before(files@, old_order[pos as int], old_order[j]));
                }
            }
        }
        order.insert(pos, idx);
        proof {
            assert forall|i: int| 0 <= i < order@.len() implies #[trigger] order@[i] < idx + 1 by {
                if i < pos {
                    assert(order@[i] == old_order[i]);
                } else if i > pos {
                    assert(order@[i] == old_order[i - 1]);
                }
            }
            assert forall|x: usize| x < idx + 1 implies #[trigger] order@.contains(x) by {
                if x == idx {
                    assert(order@[pos as int] == x);
                } else {
                    assert(old_order.contains(x));
                    let k = choose|k: int| 0 <= k < old_order.len() && old_order[k] == x;
                    if k < pos {
                        assert(order@[k] == x);
                    } else {
                        assert(order@[k + 1] == x);
                    }
                }
            }
            assert forall|i: int, j: int| 0 <= i < j < order@.len() implies goes_before(
                files@,
                #[trigger] order@[i],
                #[trigger] order@[j],
            ) by {
                if j < pos {
                    assert(order@[i] == old_order[i] && order@[j] == old_order[j]);
                } else if j == pos {
                    assert(order@[i] == old_order[i]);
                } else if i < pos {
                    assert(order@[i] == old_order[i] && order@[j] == old_order[j - 1]);
                    assert(goes_before(files@, old_order[i], old_order[j - 1]));
                } else if i == pos {
                    assert(order@[j] == old_order[j - 1]);
                } else {
                    assert(order@[i] == old_order[i - 1] && order@[j] == old_order[j - 1]);
                    assert(goes_before(files@, old_order[i - 1], old_order[j - 1]));
                }
            }
        }
        idx = idx + 1;
    }
    order
}

proof fn lemma_total_take_step(files: Seq<CacheFile>, i: int)
    requires
        0 <= i < files.len(),
    ensures
        total_size(files.take(i + 1)) == total_size(files.take(i)) + files[i].size,
{
    assert(files.take(i + 1).drop_last() =~= files.take(i));
}

/// Which files to delete, in deletion order, to bring the cache within
/// `max_bytes`: the oldest files first, and no more of them than needed.
pub fn plan_cache_deletions(files: &Vec<CacheFile>, max_bytes: u64) -> (r: Vec<usize>)
    ensures
        r@.len() <= files@.len(),
        forall|i: int| 0 <= i < r@.len() ==> #[trigger] r@[i] < files@.len(),
        forall|i: int, j: int|
            0 <= i < j < r@.len() ==> goes_before(files@, #[trigger] r@[i], #[trigger] r@[j]),
        forall|i: int, x: usize|
            #![trigger r@[i], r@.contains(x)]
            0 <= i < r@.len() && x < files@.len() && !r@.contains(x) ==> goes_before(
                files@,
                r@[i],
                x,
            ),
        bytes_left(files@, r@) <= max_bytes || r@.len() == files@.len(),
        forall|k: int| 0 <= k < r@.len() ==> bytes_left(files@, #[trigger] r@.take(k)) > max_bytes,
{
    let order = oldest_first(files);
    let n = files.len();
    let mut total: u64 = 0;
    let mut t: usize = 0;
    while t < n
        invariant
            t <= n == files@.len(),
            total as int == (if total_size(files@.take(t as int)) > u64::MAX {
                u64::MAX as int
            } else {
                total_size(files@.take(t as int)) as int
            }),
        decreases n - t,
    {
        proof {
            lemma_total_take_step(files@, t as int);
        }
        total = total.saturating_add(files[t].size);
        t = t + 1;
    }
    assert(files@.take(n as int) =~= files@);
    let mut deleted: Vec<usize> = Vec::new();
    let mut i: usize = 0;
    assert(deleted@ =~= order@.take(0));
    while i < n && total > max_bytes
        invariant
            i <= n == files@.len(),
            oldest_first_order(files@, order@),
            deleted@ == order@.take(i as int),
            total as int == bytes_left(files@, deleted@),
            forall|k: int| 0 <= k < i ==> bytes_left(files@, #[trigger] order@.take(k)) > max_bytes,
        decreases n - i,
    {
        let x = order[i];
        let ghost before = deleted@;
        deleted.push(x);
        proof {
            assert(deleted@.drop_last() =~= before);
            assert(deleted@ =~= order@.take(i + 1));
            assert(order@.take(i + 1).take(i as int) =~= order@.take(i as int));
        }
        total = total.saturating_sub(files[x].size);
        i = i + 1;
    }
    proof {
        assert forall|k: int| 0 <= k < deleted@.len() implies bytes_left(
            files@,
            #[trigger] deleted@.take(k),
        ) > max_bytes by {
            assert(deleted@.take(k) =~= order@.take(k));
        }
        assert forall|a: int, x: usize|
            #![trigger deleted@[a], deleted@.contains(x)]
            0 <= a < deleted@.len() && x < files@.len() && !deleted@.contains(x) implies goes_before(
            files@,
            deleted@[a],
            x,
        ) by {
            assert(order@.contains(x));
            let j = choose|j: int| 0 <= j < order@.len() && order@[j] == x;
            if j < i {
                assert(deleted@[j] == x);
            }
            assert(deleted@[a] == order@[a]);
        }
        assert forall|a: int, b: int| 0 <= a < b < deleted@.len() implies goes_before(
            files@,
            #[trigger] deleted@[a],
            #[trigger] deleted@[b],
        ) by {
            assert(deleted@[a] == order@[a] && deleted@[b] == order@[b]);
        }
        assert forall|a: int| 0 <= a < deleted@.len() implies #[trigger] deleted@[a]
            < files@.len() by {
            assert(deleted@[a] == order@[a]);
        }
    }
    deleted
}

/// Why a cache file may not be read.
#[derive(Debug, Clone, PartialEq, Eq)]
pub enum CacheReadError {
    /// The file is not inside the cache directory, shown by name.
    OutsideCache(String),
    /// The file is neither `.json` nor `.toon`.
    WrongExtension,
    /// The path is not a regular file.
    NotAFile,
    /// The file is larger than `MAX_CACHE_READ_BYTES`; its size.
    TooLarge(u64),
}

/// The text of a cache read error.
pub open spec fn cache_read_message(e: CacheReadError) -> Seq<char> {
    match e {
        CacheReadError::OutsideCache(root) => "Cache file must be inside "@ + root@,
        CacheReadError::WrongExtension => "Only .json and .toon cache files can be loaded"@,
        CacheReadError::NotAFile => "Cache path is not a regular file"@,
        CacheReadError::TooLarge(len) => "Cache file is "@ + dec_nat(len as nat)
            + " bytes; maximum readable size is "@ + dec_nat(MAX_CACHE_READ_BYTES as nat)
            + " bytes"@,
    }
}

impl CacheReadError {
    /// The text of this error.
    pub fn message(&self) -> (r: String)
        ensures
            r@ == cache_read_message(*self),
    {
        let mut s = String::new();
        match self {
            CacheReadError::OutsideCache(root) => {
                push_str(&mut s, "Cache file must be inside ");
                push_str(&mut s, root.as_str());
            },
            CacheReadError::WrongExtension => {
                push_str(&mut s, "Only .json and .toon cache files can be loaded");
            },
            CacheReadError::NotAFile => {
                push_str(&mut s, "Cache path is not a regular file");
            },
            CacheReadError::TooLarge(len) => {
                push_str(&mut s, "Cache file is ");
                push_decimal_u64(&mut s, *len);
                push_str(&mut s, " bytes; maximum readable size is ");
                push_decimal_u64(&mut s, MAX_CACHE_READ_BYTES);
                push_str(&mut s, " bytes");
            },
        }
        assert(s@ =~= cache_read_message(*self));
        s
    }
}

/// Checks the location and the extension of a file to be read back: it must
/// lie inside the cache directory (shown as `root` in the error) and be a
/// `.json` or `.toon` file, checked in that order.
pub fn check_cache_location(inside_root: bool, ext: Option<&str>, root: &str) -> (r: Result<
    OutputFormat,
    CacheReadError,
>)
    ensures
        !inside_root ==> (r matches Err(CacheReadError::OutsideCache(s)) && s@ == root@),
        inside_root && ext is Some && ext.unwrap()@ == "json"@ ==> r == Ok::<
            OutputFormat,
            CacheReadError,
        >(OutputFormat::Json),
        inside_root && ext is Some && ext.unwrap()@ == "toon"@ ==> r == Ok::<
            OutputFormat,
            CacheReadError,
        >(OutputFormat::Toon),
        inside_root && !is_cache_ext(match ext {
            Some(e) => Some(e@),
            None => None,
        }) ==> r == Err::<OutputFormat, CacheReadError>(CacheReadError::WrongExtension),
{
    proof {
        reveal_strlit("json");
        reveal_strlit("toon");
        assert("json"@[0] != "toon"@[0]);
    }
    if !inside_root {
        return Err(CacheReadError::OutsideCache(crate::text::owned(root)));
    }
    match ext {
        Some(e) => {
            if str_eq(e, "json") {
                Ok(OutputFormat::Json)
            } else if str_eq(e, "toon") {
                Ok(OutputFormat::Toon)
            } else {
                Err(CacheReadError::WrongExtension)
            }
        },
        None => Err(CacheReadError::WrongExtension),
    }
}

/// Checks the metadata of a file to be read back: a regular file of at most
/// `MAX_CACHE_READ_BYTES` bytes.
pub fn check_cache_file(is_file: bool, len: u64) -> (r: Result<(), CacheReadError>)
    ensures
        !is_file ==> r == Err::<(), CacheReadError>(CacheReadError::NotAFile),
        is_file && len > MAX_CACHE_READ_BYTES ==> r == Err::<(), CacheReadError>(
            CacheReadError::TooLarge(len),
        ),
        is_file && len <= MAX_CACHE_READ_BYTES ==> r is Ok,
{
    if !is_file {
        Err(CacheReadError::NotAFile)
    } else if len > MAX_CACHE_READ_BYTES {
        Err(CacheReadError::TooLarge(len))
    } else {
        Ok(())
    }
}

/// Whether `serde_json::from_str` accepts a text as a JSON value.
pub uninterp spec fn json_accepts(text: Seq<char>) -> bool;

/// The JSON value that `serde_json::from_str` reads from a text it accepts.
pub uninterp spec fn json_value_of(text: Seq<char>) -> serde_json::Value;

/// The JSON string value holding a text (`serde_json::Value::String`).
pub uninterp spec fn json_string(text: Seq<char>) -> serde_json::Value;

/// Parses a text as a JSON value (`serde_json::from_str`): it succeeds
/// exactly on the texts it accepts, with the value it reads, both functions
/// of the text alone.
#[verifier::external_body]
fn parse_json(text: &str) -> (r: Result<serde_json::Value, serde_json::Error>)
    ensures
        r is Ok <==> json_accepts(text@),
        r is Ok ==> r->Ok_0 == json_value_of(text@),
{
    serde_json::from_str(text)
}

/// The JSON string value holding a text (`serde_json::Value::String`).
#[verifier::external_body]
fn string_value(text: String) -> (r: serde_json::Value)
    ensures
        r == json_string(text@),
{
    serde_json::Value::String(text)
}

/// Turns the text of a cache file back into a value: a JSON file is parsed;
/// TOON is written only, so a TOON file comes back as its raw text in a JSON
/// string.
pub fn decode_cache_content(content: String, format: OutputFormat) -> (r: Result<
    serde_json::Value,
    serde_json::Error,
>)
    ensures
        format == OutputFormat::Toon ==> r is Ok && r->Ok_0 == json_string(content@),
        format == OutputFormat::Json ==> (r is Ok <==> json_accepts(content@)),
        format == OutputFormat::Json && r is Ok ==> r->Ok_0 == json_value_of(content@),
{
    match format {
        OutputFormat::Toon => Ok(string_value(content)),
        OutputFormat::Json => parse_json(content.as_str()),
    }
}

/// The file name of a cache entry: `<prefix>_<timestamp>_<id>.<extension>`.
pub open spec fn cache_name(
    prefix: Seq<char>,
    timestamp: int,
    id: Seq<char>,
    format: OutputFormat,
) -> Seq<char> {
    prefix + "_"@ + dec_int(timestamp) + "_"@ + id + "."@ + crate::output::format_extension(
        format,
    )
}

/// Builds the file name of a cache entry.
pub fn cache_file_name(prefix: &str, timestamp: i64, id: &str, format: OutputFormat) -> (r:
    String)
    ensures
        r@ == cache_name(prefix@, timestamp as int, id@, format),
{
    let mut s = String::new();
    push_str(&mut s, prefix);
    push_char(&mut s, '_');
    push_decimal_i64(&mut s, timestamp);
    push_char(&mut s, '_');
    push_str(&mut s, id);
    push_char(&mut s, '.');
    push_str(&mut s, format.extension());
    proof {
        reveal_strlit("_");
        reveal_strlit(".");
    }
    assert(s@ =~= cache_name(prefix@, timestamp as int, id@, format));
    s
}

/// A lower-case hexadecimal digit.
pub open spec fn is_lower_hex(c: char) -> bool {
    ('0' <= c <= '9') || ('a' <= c <= 'f')
}

/// A random version-4 UUID in its hyphenated lower-case text form
/// (`uuid::Uuid::new_v4` and its `Display`): 36 characters, hyphens at
/// positions 8, 13, 18 and 23 and lower-case hexadecimal digits elsewhere.
/// The digits are random; nothing more is stated of them.
#[verifier::external_body]
fn random_uuid_text() -> (r: String)
    ensures
        r@.len() == 36,
        forall|i: int|
            0 <= i < 36 && i != 8 && i != 13 && i != 18 && i != 23 ==> is_lower_hex(
                #[trigger] r@[i],
            ),
{
    uuid::Uuid::new_v4().to_string()
}

/// The first group of a UUID in hyphenated text form: its first eight
/// characters.
pub fn uuid_first_group(uuid: &str) -> (r: String)
    requires
        uuid@.len() >= 8,
    ensures
        r@ == uuid@.subrange(0, 8),
{
    let v = chars_of(uuid);
    let mut s = String::new();
    push_chars(&mut s, &v, 0, 8);
    assert(s@ =~= v@.subrange(0, 8));
    s
}

/// Eight random lower-case hexadecimal digits, the first group of a fresh UUID.
pub fn unique_cache_id() -> (r: String)
    ensures
        r@.len() == 8,
        forall|i: int| 0 <= i < 8 ==> is_lower_hex(#[trigger] r@[i]),
{
    let text = random_uuid_text();
    let s = uuid_first_group(text.as_str());
    assert forall|i: int| 0 <= i < 8 implies is_lower_hex(#[trigger] s@[i]) by {
        assert(s@[i] == text@[i]);
    }
    s
}

/// A fresh cache file name for `prefix` at `timestamp`, with a random
/// eight-digit hexadecimal id.
pub fn new_cache_file_name(prefix: &str, timestamp: i64, format: OutputFormat) -> (r: String)
    ensures
        exists|id: Seq<char>|
            id.len() == 8 && (forall|i: int| 0 <= i < 8 ==> is_lower_hex(#[trigger] id[i]))
                && r@ == cache_name(prefix@, timestamp as int, id, format),
{
    let id = unique_cache_id();
    let r = cache_file_name(prefix, timestamp, id.as_str(), format);
    assert(r@ == cache_name(prefix@, timestamp as int, id@, format));
    r
}

/// Why the current time could not be taken as a Unix timestamp.
#[derive(Debug, Clone, Copy, PartialEq, Eq, Structural)]
pub enum TimestampError {
    /// The system clock is before the Unix epoch.
    BeforeEpoch,
    /// The number of seconds does not fit in an `i64`.
    OutOfRange,
}

/// Seconds elapsed since the Unix epoch by the system clock
/// (`SystemTime::now().duration_since(UNIX_EPOCH)`), or `None` when the
/// clock is before the epoch. The value depends on the time of the call.
#[verifier::external_body]
fn seconds_since_epoch() -> Option<u64> {
    match std::time::SystemTime::now().duration_since(std::time::UNIX_EPOCH) {
        Ok(d) => Some(d.as_secs()),
        Err(_) => None,
    }
}

/// Converts seconds since the epoch, if the clock gave any, to an `i64`
/// timestamp.
pub fn timestamp_from_seconds(secs: Option<u64>) -> (r: Result<i64, TimestampError>)
    ensures
        secs is None ==> r == Err::<i64, TimestampError>(TimestampError::BeforeEpoch),
        secs is Some && secs.unwrap() > i64::MAX ==> r == Err::<i64, TimestampError>(
            TimestampError::OutOfRange,
        ),
        secs is Some && secs.unwrap() <= i64::MAX ==> r == Ok::<i64, TimestampError>(
            secs.unwrap() as i64,
        ),
{
    match secs {
        None => Err(TimestampError::BeforeEpoch),
        Some(s) => if s > 9223372036854775807u64 {
            Err(TimestampError::OutOfRange)
        } else {
            Ok(s as i64)
        },
    }
}

/// The current time in whole seconds since the Unix epoch.
pub fn unix_timestamp() -> (r: Result<i64, TimestampError>)
    ensures
        r matches Ok(t) ==> t >= 0,
{
    timestamp_from_seconds(seconds_since_epoch())
}

} // verus!
