//! Shader source handling: splitting a combined source file into its
//! stage sections and picking a stage from a file name's extension. A
//! combined file marks each stage with a directive (`!vert`, `!frag`) and
//! a section runs to the next line that starts a directive or to the end
//! of the file. The host reads the file and compiles the sections; the
//! splitting itself is exact byte arithmetic and is verified here.

use vstd::prelude::*;

verus! {

/// A shader stage.
#[derive(Clone, Copy, Debug, PartialEq, Eq, Structural)]
pub enum ShaderKind {
    Vertex,
    Fragment,
}

/// Why a combined source file could not be split.
#[derive(Clone, Copy, Debug, PartialEq, Eq, Structural)]
pub enum ShaderParseError {
    /// No `!vert` directive occurs in the file.
    MissingVertexDirective,
    /// No `!frag` directive occurs in the file.
    MissingFragmentDirective,
}

/// The stage sections of a combined source file, as raw bytes.
#[derive(Debug, PartialEq, Eq)]
pub struct ShaderSources {
    pub vertex: Vec<u8>,
    pub fragment: Vec<u8>,
}

/// `pat` occurs in `s` at position `i`.
pub open spec fn match_at(s: Seq<u8>, pat: Seq<u8>, i: int) -> bool {
    &&& 0 <= i
    &&& i + pat.len() <= s.len()
    &&& s.subrange(i, i + pat.len()) == pat
}

/// The first position at or after `from` where `pat` occurs in `s`.
pub open spec fn first_match(s: Seq<u8>, pat: Seq<u8>, from: int) -> Option<int>
    decreases s.len() - from + 1,
{
    if from < 0 {
        first_match(s, pat, 0)
    } else if from + pat.len() > s.len() {
        None::<int>
    } else if match_at(s, pat, from) {
        Some(from)
    } else {
        first_match(s, pat, from + 1)
    }
}

/// What `first_match` returns is the first occurrence: a found position
/// matches and no earlier position at or after `from` does; nothing is
/// found exactly when no position at or after `from` matches.
pub proof fn lemma_first_match(s: Seq<u8>, pat: Seq<u8>, from: int)
    ensures
        first_match(s, pat, from) matches Some(i) ==> {
            &&& from <= i
            &&& match_at(s, pat, i)
            &&& forall|j: int| from <= j < i ==> !match_at(s, pat, j)
        },
        first_match(s, pat, from) is None ==> forall|j: int| from <= j ==> !match_at(s, pat, j),
    decreases s.len() - from + 1,
{
    if from < 0 {
        lemma_first_match(s, pat, 0);
    } else if from + pat.len() > s.len() {
    } else if match_at(s, pat, from) {
    } else {
        lemma_first_match(s, pat, from + 1);
    }
}

/// Whether `pat` occurs in `s` at position `i`, byte by byte.
pub fn match_at_exec(s: &Vec<u8>, pat: &Vec<u8>, i: usize) -> (r: bool)
    requires
        i + pat@.len() <= s@.len(),
    ensures
        r == match_at(s@, pat@, i as int),
{
    let n: usize = s.len();
    let m: usize = pat.len();
    let mut k: usize = 0;
    while k < m
        invariant
            n == s@.len(),
            m == pat@.len(),
            i + m <= n,
            k <= m,
            forall|j: int| 0 <= j < k ==> s@[i + j] == pat@[j],
        decreases m - k,
    {
        if s[i + k] != pat[k] {
            proof {
                if match_at(s@, pat@, i as int) {
                    assert(s@.subrange(i as int, i + pat@.len())[k as int] == s@[i + k]);
                }
            }
            return false;
        }
        k = k + 1;
    }
    proof {
        assert(s@.subrange(i as int, i + pat@.len()) =~= pat@);
    }
    true
}

/// The first position at or after `from` where `pat` occurs in `s`, or
/// nothing when it does not occur there: exactly `first_match`.
pub fn find_first_from(s: &Vec<u8>, pat: &Vec<u8>, from: usize) -> (r: Option<usize>)
    ensures
        r matches Some(i) ==> first_match(s@, pat@, from as int) == Some(i as int),
        r is None ==> first_match(s@, pat@, from as int) is None,
{
    let n: usize = s.len();
    let m: usize = pat.len();
    if m > n || from > n - m {
        return None;
    }
    if m == 0 {
        proof {
            assert(s@.subrange(from as int, from as int) =~= pat@);
        }
        return Some(from);
    }
    let mut i: usize = from;
    while i <= n - m
        invariant
            1 <= m <= n,
            n == s@.len(),
            m == pat@.len(),
            from <= i <= n - m + 1,
            first_match(s@, pat@, from as int) == first_match(s@, pat@, i as int),
        decreases n - m + 1 - i,
    {
        if match_at_exec(s, pat, i) {
            return Some(i);
        }
        i = i + 1;
    }
    None
}

/// The bytes of the `!vert` directive.
pub open spec fn vert_directive() -> Seq<u8> {
    seq![33u8, 118u8, 101u8, 114u8, 116u8]
}

/// The bytes of the `!frag` directive.
pub open spec fn frag_directive() -> Seq<u8> {
    seq![33u8, 102u8, 114u8, 97u8, 103u8]
}

/// The bytes that end a section: a line break followed by the `!` of the
/// next directive.
pub open spec fn newline_directive() -> Seq<u8> {
    seq![10u8, 33u8]
}

fn vert_directive_bytes() -> (v: Vec<u8>)
    ensures
        v@ == vert_directive(),
{
    let mut v: Vec<u8> = Vec::new();
    v.push(33u8);
    v.push(118u8);
    v.push(101u8);
    v.push(114u8);
    v.push(116u8);
    proof {
        assert(v@ =~= vert_directive());
    }
    v
}

fn frag_directive_bytes() -> (v: Vec<u8>)
    ensures
        v@ == frag_directive(),
{
    let mut v: Vec<u8> = Vec::new();
    v.push(33u8);
    v.push(102u8);
    v.push(114u8);
    v.push(97u8);
    v.push(103u8);
    proof {
        assert(v@ =~= frag_directive());
    }
    v
}

fn newline_directive_bytes() -> (v: Vec<u8>)
    ensures
        v@ == newline_directive(),
{
    let mut v: Vec<u8> = Vec::new();
    v.push(10u8);
    v.push(33u8);
    proof {
        assert(v@ =~= newline_directive());
    }
    v
}

/// Where the section opened by the directive at `pos` ends: at the first
/// line that starts a directive after `pos`, or at the end of the file.
pub open spec fn section_end(s: Seq<u8>, pos: int) -> int {
    match first_match(s, newline_directive(), pos + 1) {
        Some(e) => e,
        None => s.len() as int,
    }
}

/// The body of the section opened by directive `dir` at `pos`: the bytes
/// between the directive and the section's end.
pub open spec fn section_at(s: Seq<u8>, dir: Seq<u8>, pos: int) -> Seq<u8> {
    s.subrange(pos + dir.len(), section_end(s, pos))
}

/// A directive's section cannot end inside the directive itself: its
/// bytes past the leading `!` contain no line break, so the section's end
/// lies at or past the directive's end.
proof fn lemma_section_end_past_directive(s: Seq<u8>, dir: Seq<u8>, pos: int)
    requires
        match_at(s, dir, pos),
        forall|k: int| 1 <= k < dir.len() ==> dir[k] != 10u8,
    ensures
        pos + dir.len() <= section_end(s, pos) <= s.len(),
{
    lemma_first_match(s, newline_directive(), pos + 1);
    match first_match(s, newline_directive(), pos + 1) {
        Some(e) => {
            assert(s.subrange(e, e + 2)[0] == s[e]);
            assert(s[e] == 10u8);
            if e < pos + dir.len() {
                assert(s.subrange(pos, pos + dir.len())[e - pos] == s[e]);
                assert(dir[e - pos] != 10u8);
                assert(false);
            }
        },
        None => {},
    }
}

/// A copy of the bytes `start .. end` of `s`.
fn copy_range(s: &Vec<u8>, start: usize, end: usize) -> (out: Vec<u8>)
    requires
        start <= end <= s@.len(),
    ensures
        out@ == s@.subrange(start as int, end as int),
{
    let mut out: Vec<u8> = Vec::new();
    let mut i: usize = start;
    while i < end
        invariant
            start <= i <= end <= s@.len(),
            out@ == s@.subrange(start as int, i as int),
        decreases end - i,
    {
        out.push(s[i]);
        i = i + 1;
        proof {
            assert(out@ =~= s@.subrange(start as int, i as int));
        }
    }
    out
}

/// Extract the body of the section opened by the directive occurring
/// first at `pos`.
fn extract_section(source: &Vec<u8>, dir: &Vec<u8>, pos: usize) -> (out: Vec<u8>)
    requires
        dir@.len() >= 1,
        match_at(source@, dir@, pos as int),
        forall|k: int| 1 <= k < dir@.len() ==> dir@[k] != 10u8,
    ensures
        out@ == section_at(source@, dir@, pos as int),
{
    let n: usize = source.len();
    proof {
        lemma_section_end_past_directive(source@, dir@, pos as int);
        assert(pos + dir@.len() <= n);
    }
    let nl = newline_directive_bytes();
    let end: usize = match find_first_from(source, &nl, pos + 1) {
        Some(e) => e,
        None => source.len(),
    };
    let start: usize = pos + dir.len();
    copy_range(source, start, end)
}

/// Split a combined shader source file into its vertex and fragment
/// sections. Succeeds exactly when both the `!vert` and the `!frag`
/// directive occur; each returned section runs from its directive's first
/// occurrence to the next line that starts a directive, or to the end of
/// the file. A file without `!frag` is refused before one without
/// `!vert`.
pub fn from_single_source(source: &Vec<u8>) -> (r: Result<ShaderSources, ShaderParseError>)
    ensures
        r is Ok <==> (first_match(source@, vert_directive(), 0) is Some && first_match(
            source@,
            frag_directive(),
            0,
        ) is Some),
        r matches Ok(out) ==> {
            &&& out.vertex@ == section_at(
                source@,
                vert_directive(),
                first_match(source@, vert_directive(), 0).unwrap(),
            )
            &&& out.fragment@ == section_at(
                source@,
                frag_directive(),
                first_match(source@, frag_directive(), 0).unwrap(),
            )
        },
        first_match(source@, frag_directive(), 0) is None ==> r == Err::<
            ShaderSources,
            ShaderParseError,
        >(ShaderParseError::MissingFragmentDirective),
        first_match(source@, frag_directive(), 0) is Some && first_match(
            source@,
            vert_directive(),
            0,
        ) is None ==> r == Err::<ShaderSources, ShaderParseError>(
            ShaderParseError::MissingVertexDirective,
        ),
{
    let frag_pat = frag_directive_bytes();
    let vert_pat = vert_directive_bytes();
    let frag_idx: usize = match find_first_from(source, &frag_pat, 0) {
        Some(i) => i,
        None => {
            return Err(ShaderParseError::MissingFragmentDirective);
        },
    };
    let vert_idx: usize = match find_first_from(source, &vert_pat, 0) {
        Some(i) => i,
        None => {
            return Err(ShaderParseError::MissingVertexDirective);
        },
    };
    proof {
        lemma_first_match(source@, vert_directive(), 0);
        lemma_first_match(source@, frag_directive(), 0);
    }
    let vertex = extract_section(source, &vert_pat, vert_idx);
    let fragment = extract_section(source, &frag_pat, frag_idx);
    Ok(ShaderSources { vertex, fragment })
}

/// `suffix` ends `s`.
pub open spec fn ends_with(s: Seq<u8>, suffix: Seq<u8>) -> bool {
    &&& suffix.len() <= s.len()
    &&& s.subrange(s.len() - suffix.len(), s.len() as int) == suffix
}

/// Whether `name` ends with `suffix`, byte by byte.
pub fn ends_with_exec(name: &Vec<u8>, suffix: &Vec<u8>) -> (r: bool)
    ensures
        r == ends_with(name@, suffix@),
{
    let n: usize = name.len();
    let m: usize = suffix.len();
    if m > n {
        return false;
    }
    match_at_exec(name, suffix, n - m)
}

/// The bytes of the `.vert` file extension.
pub open spec fn vert_extension() -> Seq<u8> {
    seq![46u8, 118u8, 101u8, 114u8, 116u8]
}

/// The bytes of the `.frag` file extension.
pub open spec fn frag_extension() -> Seq<u8> {
    seq![46u8, 102u8, 114u8, 97u8, 103u8]
}

/// The bytes of the `.glsl` file extension, which marks a combined
/// single-source file.
pub open spec fn glsl_extension() -> Seq<u8> {
    seq![46u8, 103u8, 108u8, 115u8, 108u8]
}

fn vert_extension_bytes() -> (v: Vec<u8>)
    ensures
        v@ == vert_extension(),
{
    let mut v: Vec<u8> = Vec::new();
    v.push(46u8);
    v.push(118u8);
    v.push(101u8);
    v.push(114u8);
    v.push(116u8);
    proof {
        assert(v@ =~= vert_extension());
    }
    v
}

fn frag_extension_bytes() -> (v: Vec<u8>)
    ensures
        v@ == frag_extension(),
{
    let mut v: Vec<u8> = Vec::new();
    v.push(46u8);
    v.push(102u8);
    v.push(114u8);
    v.push(97u8);
    v.push(103u8);
    proof {
        assert(v@ =~= frag_extension());
    }
    v
}

fn glsl_extension_bytes() -> (v: Vec<u8>)
    ensures
        v@ == glsl_extension(),
{
    let mut v: Vec<u8> = Vec::new();
    v.push(46u8);
    v.push(103u8);
    v.push(108u8);
    v.push(115u8);
    v.push(108u8);
    proof {
        assert(v@ =~= glsl_extension());
    }
    v
}

/// The shader stage a file name's extension selects: `.vert` names a
/// vertex shader and `.frag` a fragment shader; any other name selects
/// nothing.
pub fn shader_kind_for_name(name: &Vec<u8>) -> (r: Option<ShaderKind>)
    ensures
        ends_with(name@, vert_extension()) ==> r == Some(ShaderKind::Vertex),
        !ends_with(name@, vert_extension()) && ends_with(name@, frag_extension()) ==> r == Some(
            ShaderKind::Fragment,
        ),
        !ends_with(name@, vert_extension()) && !ends_with(name@, frag_extension()) ==> r is None,
{
    let vert_ext = vert_extension_bytes();
    if ends_with_exec(name, &vert_ext) {
        return Some(ShaderKind::Vertex);
    }
    let frag_ext = frag_extension_bytes();
    if ends_with_exec(name, &frag_ext) {
        return Some(ShaderKind::Fragment);
    }
    None
}

/// Whether a file name marks a combined single-source file: it ends with
/// `.glsl`.
pub fn is_single_source_name(name: &Vec<u8>) -> (r: bool)
    ensures
        r == ends_with(name@, glsl_extension()),
{
    let glsl_ext = glsl_extension_bytes();
    ends_with_exec(name, &glsl_ext)
}

} // verus!
