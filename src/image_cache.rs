//! A content-addressed cache for the conversion of raw camera files to
//! TIFF. An artifact is keyed by a fingerprint of the source bytes and of a
//! context string naming the exact conversion, so the same bytes under the
//! same conversion always find the same artifact.
//!
//! The caller performs the file-system work: it reads the source, asks
//! [`cache_probe`] what to do once it knows the size of the artifact, runs
//! the conversion, and reports its outcome to [`cache_converted`].

use vstd::prelude::*;
use vstd::utf8::encode_utf8;
use crate::command::{CommandModel, CommandSpec, InputRoute, OutputRoute};
use crate::text::{concat, join_path, joined};

verus! {

/// An external program, and the directory to run it in, if any.
#[derive(Debug, Clone)]
pub struct Tool {
    pub program: String,
    pub working_dir: Option<String>,
}

/// The flags of the raw converter, fixed for every conversion.
pub open spec fn dcraw_flags() -> Seq<Seq<char>> {
    seq![
        "-T"@, "-o"@, "1"@, "-W"@, "-j"@, "-q"@, "3"@, "-g"@, "2"@, "0"@, "-t"@, "0"@, "-b"@,
        "1.1"@,
    ]
}

/// The items of `s` with one space between each two.
pub open spec fn spaced(s: Seq<Seq<char>>) -> Seq<char>
    decreases s.len(),
{
    if s.len() == 0 {
        seq![]
    } else if s.len() == 1 {
        s[0]
    } else {
        spaced(s.drop_last()) + seq![' '] + s.last()
    }
}

/// The context that identifies the raw conversion in the cache key.
pub open spec fn dcraw_context_text() -> Seq<char> {
    "dcraw_emu|"@ + spaced(dcraw_flags())
}

/// The lower-case hexadecimal BLAKE3 digest of `data`.
pub uninterp spec fn blake3_hex(data: Seq<u8>) -> Seq<char>;

/// `c` is a digit or one of the letters `a` to `f`.
pub open spec fn is_lower_hex_digit(c: char) -> bool {
    ('0' <= c && c <= '9') || ('a' <= c && c <= 'f')
}

/// The cache key of a source with bytes `contents` under `context`: the
/// digest of the bytes followed by the UTF-8 bytes of the context.
pub open spec fn fingerprint_of(contents: Seq<u8>, context: Seq<char>) -> Seq<char> {
    blake3_hex(contents + encode_utf8(context))
}

/// Where the artifact for a source with bytes `contents` is kept.
pub open spec fn artifact_path(cache_dir: Seq<char>, contents: Seq<u8>) -> Seq<char> {
    joined(cache_dir, fingerprint_of(contents, dcraw_context_text()) + ".tiff"@)
}

/// The flags of the raw converter.
pub fn dcraw_base_args() -> (r: Vec<String>)
    ensures
        r.deep_view() == dcraw_flags(),
{
    let flags: Vec<&'static str> = vec![
        "-T", "-o", "1", "-W", "-j", "-q", "3", "-g", "2", "0", "-t", "0", "-b", "1.1",
    ];
    let mut r: Vec<String> = Vec::new();
    let mut i: usize = 0;
    while i < flags.len()
        invariant
            i <= flags@.len(),
            flags@ == seq![
                "-T", "-o", "1", "-W", "-j", "-q", "3", "-g", "2", "0", "-t", "0", "-b", "1.1",
            ],
            r.deep_view() == flags@.take(i as int).map_values(|s: &str| s@),
        decreases flags.len() - i,
    {
        let ghost before = r.deep_view();
        r.push(String::from_str(flags[i]));
        assert(r.deep_view() =~= before.push(flags@[i as int]@));
        assert(flags@.take(i + 1).map_values(|s: &str| s@) =~= flags@.take(i as int).map_values(
            |s: &str| s@,
        ).push(flags@[i as int]@));
        i = i + 1;
    }
    assert(flags@.take(i as int).map_values(|s: &str| s@) =~= dcraw_flags());
    r
}

/// The context string of the raw conversion: the converter's name and its
/// flags.
pub fn dcraw_context() -> (r: String)
    ensures
        r@ == dcraw_context_text(),
{
    let flags = dcraw_base_args();
    let mut r = String::from_str("dcraw_emu|");
    let mut i: usize = 0;
    while i < flags.len()
        invariant
            i <= flags@.len(),
            flags.deep_view() == dcraw_flags(),
            r@ == "dcraw_emu|"@ + spaced(dcraw_flags().take(i as int)),
        decreases flags.len() - i,
    {
        assert(dcraw_flags().take(i + 1).drop_last() =~= dcraw_flags().take(i as int));
        if i > 0 {
            r.append(" ");
            proof {
                reveal_strlit(" ");
            }
        }
        r.append(flags[i].as_str());
        assert(flags[i as int]@ == dcraw_flags()[i as int]);
        assert(r@ =~= "dcraw_emu|"@ + spaced(dcraw_flags().take(i + 1)));
        i = i + 1;
    }
    assert(dcraw_flags().take(i as int) =~= dcraw_flags());
    r
}

/// Relies on `blake3::hash` and `Hash::to_hex`: the 32-byte digest of the
/// bytes, as 64 lower-case hexadecimal digits.
#[verifier::external_body]
fn blake3_hex_of(data: &[u8]) -> (r: String)
    ensures
        r@ == blake3_hex(data@),
        r@.len() == 64,
        forall|i: int| 0 <= i < r@.len() ==> is_lower_hex_digit(#[trigger] r@[i]),
{
    blake3::hash(data).to_hex().to_string()
}

/// The cache key of a source with bytes `contents` under `context`.
pub fn fingerprint(contents: &[u8], context: &str) -> (r: String)
    ensures
        r@ == fingerprint_of(contents@, context@),
        r@.len() == 64,
        forall|i: int| 0 <= i < r@.len() ==> is_lower_hex_digit(#[trigger] r@[i]),
{
    let mut msg: Vec<u8> = vstd::slice::slice_to_vec(contents);
    let tail = context.as_bytes();
    let mut i: usize = 0;
    while i < tail.len()
        invariant
            i <= tail@.len(),
            tail@ == encode_utf8(context@),
            msg@ == contents@ + tail@.take(i as int),
        decreases tail.len() - i,
    {
        msg.push(tail[i]);
        assert(tail@.take(i + 1) =~= tail@.take(i as int).push(tail@[i as int]));
        i = i + 1;
    }
    assert(tail@.take(i as int) =~= tail@);
    blake3_hex_of(msg.as_slice())
}

/// Where the converted artifact of a source with bytes `contents` is kept
/// under `cache_dir`.
pub fn cached_artifact(cache_dir: &str, contents: &[u8]) -> (r: String)
    ensures
        r@ == artifact_path(cache_dir@, contents@),
{
    let key = fingerprint(contents, dcraw_context().as_str());
    let name = key.concat(".tiff");
    join_path(cache_dir, name.as_str())
}

/// The raw conversion of `input` into the TIFF file `output`.
pub open spec fn conversion_model(tool: Tool, input: Seq<char>, output: Seq<char>) -> CommandModel {
    CommandModel {
        program: tool.program@,
        args: dcraw_flags() + seq!["-Z"@, output, input],
        env: seq![],
        working_dir: match tool.working_dir {
            Some(d) => Some(d@),
            None => None,
        },
        stdin: InputRoute::Inherit,
        stdout: OutputRoute::Inherit,
    }
}

/// The command that converts the raw file `input` into the TIFF file
/// `output`.
pub fn conversion_command(tool: &Tool, input: &str, output: &str) -> (r: CommandSpec)
    ensures
        r@ == conversion_model(*tool, input@, output@),
{
    let mut spec = CommandSpec::new(tool.program.as_str()).args(dcraw_base_args()).arg("-Z").arg(
        output,
    ).arg(input);
    match &tool.working_dir {
        Some(d) => {
            spec = spec.working_dir(d.as_str());
        },
        None => {},
    }
    assert(spec@.args =~= dcraw_flags() + seq!["-Z"@, output@, input@]);
    spec
}

/// The next thing the caller must do for a cache request.
#[derive(Debug)]
pub enum CacheAction {
    /// Run this conversion, which writes the artifact, and report whether it
    /// succeeded.
    Convert(CommandSpec),
    /// Delete whatever the failed conversion left at `path`, then fail with
    /// `error`.
    Discard { path: String, error: String },
    /// The request is over with this result: the artifact's path, or an
    /// error message.
    Finish(Result<String, String>),
}

/// Mathematical model of a [`CacheAction`].
pub enum CacheStep {
    Convert(CommandModel),
    Discard { path: Seq<char>, error: Seq<char> },
    Finish(Result<Seq<char>, Seq<char>>),
}

impl View for CacheAction {
    type V = CacheStep;

    open spec fn view(&self) -> CacheStep {
        match self {
            CacheAction::Convert(spec) => CacheStep::Convert(spec@),
            CacheAction::Discard { path, error } => CacheStep::Discard {
                path: path@,
                error: error@,
            },
            CacheAction::Finish(Ok(p)) => CacheStep::Finish(Ok(p@)),
            CacheAction::Finish(Err(e)) => CacheStep::Finish(Err(e@)),
        }
    }
}

/// The message of a failed conversion.
pub open spec fn conversion_failure() -> Seq<char> {
    "Error, non-zero exit status. dcraw_emu command (converting to tiff images) failed."@
}

/// Once the size of the artifact is known (`None` when there is no file):
/// a non-empty artifact is a hit; a missing or empty one is converted anew.
pub open spec fn probe_step(tool: Tool, input: Seq<char>, artifact: Seq<char>, size: Option<
    u64,
>) -> CacheStep {
    match size {
        Some(s) if s > 0 => CacheStep::Finish(Ok(artifact)),
        _ => CacheStep::Convert(conversion_model(tool, input, artifact)),
    }
}

/// After the conversion: its artifact on success; on failure the partial
/// artifact is discarded before the error is returned.
pub open spec fn converted_step(artifact: Seq<char>, converted: bool) -> CacheStep {
    if converted {
        CacheStep::Finish(Ok(artifact))
    } else {
        CacheStep::Discard { path: artifact, error: conversion_failure() }
    }
}

/// What one cache request for the raw file `input` with bytes `contents`
/// does, given the size of the artifact already present and whether the
/// conversion would succeed: whether it converts, which file it discards,
/// and its result.
pub struct CacheRequest {
    pub converted: bool,
    pub discarded: Option<Seq<char>>,
    pub result: Result<Seq<char>, Seq<char>>,
}

/// One whole cache request, step after step.
pub open spec fn cache_request(
    cache_dir: Seq<char>,
    tool: Tool,
    input: Seq<char>,
    contents: Seq<u8>,
    present: Option<u64>,
    conversion_succeeds: bool,
) -> CacheRequest {
    let artifact = artifact_path(cache_dir, contents);
    match probe_step(tool, input, artifact, present) {
        CacheStep::Finish(r) => CacheRequest { converted: false, discarded: None, result: r },
        _ => match converted_step(artifact, conversion_succeeds) {
            CacheStep::Discard { path, error } => CacheRequest {
                converted: true,
                discarded: Some(path),
                result: Err(error),
            },
            CacheStep::Finish(r) => CacheRequest { converted: true, discarded: None, result: r },
            _ => CacheRequest { converted: true, discarded: None, result: Err(seq![]) },
        },
    }
}

/// Decides, once the size of the artifact for `input` is known, whether the
/// cache hits.
pub fn cache_probe(tool: &Tool, input: &str, artifact: &String, size: Option<u64>) -> (a:
    CacheAction)
    ensures
        a@ == probe_step(*tool, input@, artifact@, size),
{
    match size {
        Some(s) if s > 0 => CacheAction::Finish(Ok(artifact.clone())),
        _ => CacheAction::Convert(conversion_command(tool, input, artifact.as_str())),
    }
}

/// Decides what follows the conversion of the artifact.
pub fn cache_converted(artifact: &String, converted: bool) -> (a: CacheAction)
    ensures
        a@ == converted_step(artifact@, converted),
{
    if converted {
        CacheAction::Finish(Ok(artifact.clone()))
    } else {
        CacheAction::Discard {
            path: artifact.clone(),
            error: String::from_str(
                "Error, non-zero exit status. dcraw_emu command (converting to tiff images) failed.",
            ),
        }
    }
}

/// A request repeated for the same bytes finds the artifact that the
/// first one produced: both name the same path, and once a non-empty file
/// is there the second request returns it without converting.
pub proof fn lemma_repeat_request_hits(
    cache_dir: Seq<char>,
    tool: Tool,
    first_input: Seq<char>,
    second_input: Seq<char>,
    contents: Seq<u8>,
    size: u64,
    succeeds: bool,
)
    requires
        size > 0,
    ensures
        cache_request(cache_dir, tool, first_input, contents, None, true).result == Ok::<
            Seq<char>,
            Seq<char>,
        >(artifact_path(cache_dir, contents)),
        cache_request(cache_dir, tool, second_input, contents, Some(size), succeeds) == (CacheRequest {
            converted: false,
            discarded: None,
            result: Ok(artifact_path(cache_dir, contents)),
        }),
{
}

/// The cache key depends on the bytes alone: two sources of the same length
/// hash the same message exactly when their bytes are equal and their
/// contexts encode to the same bytes, so changing a byte of either changes
/// what is hashed.
pub proof fn lemma_fingerprint_message(c1: Seq<u8>, c2: Seq<u8>, ctx1: Seq<char>, ctx2: Seq<char>)
    requires
        c1.len() == c2.len(),
    ensures
        (c1 + encode_utf8(ctx1) == c2 + encode_utf8(ctx2)) <==> (c1 == c2 && encode_utf8(ctx1)
            == encode_utf8(ctx2)),
{
    let m1 = c1 + encode_utf8(ctx1);
    let m2 = c2 + encode_utf8(ctx2);
    if m1 == m2 {
        assert(c1 =~= m1.subrange(0, c1.len() as int));
        assert(c2 =~= m2.subrange(0, c2.len() as int));
        assert(encode_utf8(ctx1) =~= m1.subrange(c1.len() as int, m1.len() as int));
        assert(encode_utf8(ctx2) =~= m2.subrange(c2.len() as int, m2.len() as int));
    }
}

/// A failed conversion leaves nothing behind: the request discards the
/// artifact's path and fails, and a retry, which finds no artifact there,
/// converts again instead of returning a corrupt hit.
pub proof fn lemma_failed_conversion_discards(
    cache_dir: Seq<char>,
    tool: Tool,
    input: Seq<char>,
    contents: Seq<u8>,
    present: Option<u64>,
    retry_succeeds: bool,
)
    requires
        !(present matches Some(s) && s > 0),
    ensures
        cache_request(cache_dir, tool, input, contents, present, false) == (CacheRequest {
            converted: true,
            discarded: Some(artifact_path(cache_dir, contents)),
            result: Err(conversion_failure()),
        }),
        cache_request(cache_dir, tool, input, contents, None, retry_succeeds).converted,
{
}

} // verus!
