//! Path and URL utilities shared by the pipeline stages, and the
//! collaborator-command vocabulary.

use vstd::prelude::*;

verus! {

/// The components of a path split on `/`. Empty components stand for
/// leading, trailing or repeated separators; the result always holds at
/// least one component.
pub open spec fn spec_split_slash(s: Seq<char>) -> Seq<Seq<char>>
    decreases s.len(),
{
    if s.len() == 0 {
        seq![Seq::<char>::empty()]
    } else if s.last() == '/' {
        spec_split_slash(s.drop_last()).push(Seq::<char>::empty())
    } else {
        let rest = spec_split_slash(s.drop_last());
        rest.update(rest.len() - 1, rest.last().push(s.last()))
    }
}

proof fn lemma_split_slash_nonempty(s: Seq<char>)
    ensures
        spec_split_slash(s).len() >= 1,
    decreases s.len(),
{
    if s.len() > 0 {
        lemma_split_slash_nonempty(s.drop_last());
    }
}

/// A path component survives normalization when it is neither empty nor
/// the no-op component `.`.
pub open spec fn spec_keep_component(c: Seq<char>) -> bool {
    c.len() > 0 && c != "."@
}

/// The components of a path that normalization keeps, in order.
pub open spec fn spec_normal_components(comps: Seq<Seq<char>>) -> Seq<Seq<char>>
    decreases comps.len(),
{
    if comps.len() == 0 {
        Seq::empty()
    } else if spec_keep_component(comps.last()) {
        spec_normal_components(comps.drop_last()).push(comps.last())
    } else {
        spec_normal_components(comps.drop_last())
    }
}

/// Components joined back with single `/` separators.
pub open spec fn spec_join_slash(comps: Seq<Seq<char>>) -> Seq<char>
    decreases comps.len(),
{
    if comps.len() == 0 {
        Seq::empty()
    } else if comps.len() == 1 {
        comps[0]
    } else {
        spec_join_slash(comps.drop_last()) + "/"@ + comps.last()
    }
}

/// Whether the path names the current directory at its start (`.` alone or
/// a leading `./`), the one place a `.` component is kept.
pub open spec fn spec_curdir_start(s: Seq<char>) -> bool {
    s.len() > 0 && s[0] == '.' && (s.len() == 1 || s[1] == '/')
}

/// A path with separators collapsed: repeated and trailing `/` dropped,
/// `.` components dropped except at the very start, a leading `/` kept.
pub open spec fn spec_normalize_path(s: Seq<char>) -> Seq<char> {
    let comps = spec_normal_components(spec_split_slash(s));
    if s.len() > 0 && s[0] == '/' {
        "/"@ + spec_join_slash(comps)
    } else if spec_curdir_start(s) {
        if comps.len() == 0 {
            "."@
        } else {
            "./"@ + spec_join_slash(comps)
        }
    } else {
        spec_join_slash(comps)
    }
}

fn split_slash(s: &String) -> (r: Vec<String>)
    ensures
        r@.map_values(|c: String| c@) == spec_split_slash(s@),
{
    let n: usize = s.as_str().unicode_len();
    let mut parts: Vec<String> = Vec::new();
    let mut start: usize = 0;
    let mut i: usize = 0;
    proof {
        assert(s@.take(0) =~= Seq::<char>::empty());
        assert(s@.subrange(0, 0) =~= Seq::<char>::empty());
        assert(parts@.map_values(|c: String| c@).push(Seq::<char>::empty())
            =~= seq![Seq::<char>::empty()]);
    }
    while i < n
        invariant
            start <= i <= n,
            n == s@.len(),
            parts@.map_values(|c: String| c@).push(s@.subrange(start as int, i as int))
                =~= spec_split_slash(s@.take(i as int)),
        decreases n - i,
    {
        let c = s.as_str().get_char(i);
        if c == '/' {
            let comp = s.as_str().substring_char(start, i).to_owned();
            parts.push(comp);
            start = i + 1;
            proof {
                assert(s@.take(i + 1 as int).drop_last() =~= s@.take(i as int));
                assert(parts@.map_values(|c: String| c@)
                    =~= spec_split_slash(s@.take(i as int)));
                assert(s@.subrange(start as int, i + 1 as int) =~= Seq::<char>::empty());
            }
        } else {
            proof {
                assert(s@.take(i + 1 as int).drop_last() =~= s@.take(i as int));
                let prev = parts@.map_values(|c: String| c@).push(
                    s@.subrange(start as int, i as int),
                );
                lemma_split_slash_nonempty(s@.take(i as int));
                assert(s@.subrange(start as int, i + 1 as int)
                    =~= s@.subrange(start as int, i as int).push(s@[i as int]));
                assert(parts@.map_values(|c: String| c@).push(
                    s@.subrange(start as int, i + 1 as int),
                ) =~= prev.update(prev.len() - 1, prev.last().push(s@[i as int])));
            }
        }
        i = i + 1;
    }
    let comp = s.as_str().substring_char(start, n).to_owned();
    parts.push(comp);
    proof {
        assert(s@.take(n as int) =~= s@);
        assert(parts@.map_values(|c: String| c@) =~= spec_split_slash(s@));
    }
    parts
}

fn keep_component(c: &String) -> (r: bool)
    ensures
        r == spec_keep_component(c@),
{
    let dot: String = ".".to_owned();
    c.as_str().unicode_len() > 0 && !(*c == dot)
}

fn join_slash(comps: &Vec<String>) -> (r: String)
    ensures
        r@ == spec_join_slash(comps@.map_values(|c: String| c@)),
{
    let mut out = String::new();
    let mut i: usize = 0;
    while i < comps.len()
        invariant
            i <= comps@.len(),
            out@ == spec_join_slash(comps@.map_values(|c: String| c@).take(i as int)),
        decreases comps@.len() - i,
    {
        if i > 0 {
            out.append("/");
        }
        out.append(comps[i].as_str());
        proof {
            let views = comps@.map_values(|c: String| c@);
            assert(views.take(i + 1 as int).drop_last() =~= views.take(i as int));
            assert(views.take(i + 1 as int).last() == views[i as int]);
        }
        i = i + 1;
    }
    proof {
        let views = comps@.map_values(|c: String| c@);
        assert(views.take(views.len() as int) =~= views);
    }
    out
}

/// Rewrites a path into its normal form, as `spec_normalize_path` states:
/// duplicate, trailing and `.` noise removed, `/` as the separator.
pub fn normalize_path(path: &String) -> (r: String)
    ensures
        r@ == spec_normalize_path(path@),
{
    let n: usize = path.as_str().unicode_len();
    let absolute: bool = n > 0 && path.as_str().get_char(0) == '/';
    let curdir: bool = n > 0 && path.as_str().get_char(0) == '.' && (n == 1
        || path.as_str().get_char(1) == '/');
    let parts = split_slash(path);
    let mut kept: Vec<String> = Vec::new();
    let mut i: usize = 0;
    while i < parts.len()
        invariant
            i <= parts@.len(),
            kept@.map_values(|c: String| c@) == spec_normal_components(
                parts@.map_values(|c: String| c@).take(i as int),
            ),
        decreases parts@.len() - i,
    {
        proof {
            let views = parts@.map_values(|c: String| c@);
            assert(views.take(i + 1 as int).drop_last() =~= views.take(i as int));
            assert(views.take(i + 1 as int).last() == views[i as int]);
        }
        if keep_component(&parts[i]) {
            let comp = parts[i].clone();
            kept.push(comp);
            proof {
                assert(kept@.map_values(|c: String| c@) =~= kept@.map_values(
                    |c: String| c@,
                ).drop_last().push(parts@.map_values(|c: String| c@)[i as int]));
            }
        }
        i = i + 1;
    }
    proof {
        let views = parts@.map_values(|c: String| c@);
        assert(views.take(views.len() as int) =~= views);
    }
    let joined = join_slash(&kept);
    if absolute {
        let mut out: String = "/".to_owned();
        out.append(joined.as_str());
        out
    } else if curdir {
        if kept.len() == 0 {
            ".".to_owned()
        } else {
            let mut out: String = "./".to_owned();
            out.append(joined.as_str());
            out
        }
    } else {
        joined
    }
}

/// The index of the `.` that starts the final component's extension:
/// the last `.` of the component after the last `/`, unless that dot
/// starts the component (a hidden file has no extension).
pub open spec fn spec_extension_dot(s: Seq<char>) -> Option<int>
    decreases s.len(),
{
    if s.len() == 0 {
        None
    } else if s.last() == '/' {
        None
    } else if s.last() == '.' {
        if s.len() == 1 || s[s.len() - 2] == '/' {
            None
        } else {
            Some(s.len() - 1)
        }
    } else {
        spec_extension_dot(s.drop_last())
    }
}

/// A path with its final extension component removed: `name.tar.gz`
/// becomes `name.tar`; a path whose last component has no extension is
/// unchanged.
pub open spec fn spec_strip_extension(s: Seq<char>) -> Seq<char> {
    match spec_extension_dot(s) {
        Some(dot) => s.take(dot),
        None => s,
    }
}

/// Removes the final extension component of a path, if it has one.
pub fn strip_extensions(path: &String) -> (r: String)
    ensures
        r@ == spec_strip_extension(path@),
{
    let n: usize = path.as_str().unicode_len();
    let mut i: usize = n;
    proof {
        assert(path@.take(n as int) =~= path@);
    }
    while i > 0
        invariant
            i <= n,
            n == path@.len(),
            spec_extension_dot(path@) == spec_extension_dot(path@.take(i as int)),
        decreases i,
    {
        proof {
            assert(path@.take(i as int).drop_last() =~= path@.take(i - 1 as int));
        }
        let c = path.as_str().get_char(i - 1);
        if c == '/' {
            return path.clone();
        }
        if c == '.' {
            if i == 1 || path.as_str().get_char(i - 2) == '/' {
                return path.clone();
            }
            let stem = path.as_str().substring_char(0, i - 1).to_owned();
            proof {
                assert(path@.take(i as int).last() == '.');
                assert(stem@ =~= path@.take(i - 1 as int));
            }
            return stem;
        }
        i = i - 1;
    }
    proof {
        assert(path@.take(0) =~= Seq::<char>::empty());
    }
    path.clone()
}

/// The index of the last `/` of a path, if it has one.
pub open spec fn spec_last_slash(s: Seq<char>) -> Option<int>
    decreases s.len(),
{
    if s.len() == 0 {
        None
    } else if s.last() == '/' {
        Some(s.len() - 1)
    } else {
        spec_last_slash(s.drop_last())
    }
}

/// The final component of a path: everything after its last `/`, or the
/// whole path without one. A trailing separator yields the empty name.
pub open spec fn spec_file_name(s: Seq<char>) -> Seq<char> {
    match spec_last_slash(s) {
        Some(i) => s.skip(i + 1),
        None => s,
    }
}

/// A path without its final component: everything before the last `/`
/// (`/` alone when that slash leads the path), or empty without one.
pub open spec fn spec_parent_dir(s: Seq<char>) -> Seq<char> {
    match spec_last_slash(s) {
        Some(i) => if i == 0 {
            "/"@
        } else {
            s.take(i)
        },
        None => Seq::empty(),
    }
}

/// Extracts the final component of a path.
pub fn file_name(path: &String) -> (r: String)
    ensures
        r@ == spec_file_name(path@),
{
    let n: usize = path.as_str().unicode_len();
    let mut i: usize = n;
    proof {
        assert(path@.take(n as int) =~= path@);
    }
    while i > 0
        invariant
            i <= n,
            n == path@.len(),
            spec_last_slash(path@) == spec_last_slash(path@.take(i as int)),
        decreases i,
    {
        proof {
            assert(path@.take(i as int).drop_last() =~= path@.take(i - 1 as int));
        }
        let c = path.as_str().get_char(i - 1);
        if c == '/' {
            let name = path.as_str().substring_char(i, n).to_owned();
            proof {
                assert(path@.take(i as int).last() == '/');
                assert(name@ =~= path@.skip(i as int));
            }
            return name;
        }
        i = i - 1;
    }
    proof {
        assert(path@.take(0) =~= Seq::<char>::empty());
    }
    path.clone()
}

/// Extracts the directory part of a path.
pub fn parent_dir(path: &String) -> (r: String)
    ensures
        r@ == spec_parent_dir(path@),
{
    let n: usize = path.as_str().unicode_len();
    let mut i: usize = n;
    proof {
        assert(path@.take(n as int) =~= path@);
    }
    while i > 0
        invariant
            i <= n,
            n == path@.len(),
            spec_last_slash(path@) == spec_last_slash(path@.take(i as int)),
        decreases i,
    {
        proof {
            assert(path@.take(i as int).drop_last() =~= path@.take(i - 1 as int));
        }
        let c = path.as_str().get_char(i - 1);
        if c == '/' {
            proof {
                assert(path@.take(i as int).last() == '/');
            }
            if i == 1 {
                return "/".to_owned();
            }
            let dir = path.as_str().substring_char(0, i - 1).to_owned();
            proof {
                assert(dir@ =~= path@.take(i - 1 as int));
            }
            return dir;
        }
        i = i - 1;
    }
    proof {
        assert(path@.take(0) =~= Seq::<char>::empty());
    }
    String::new()
}

/// Whether `url::Url::parse` accepts a string: an absolute URL under the
/// grammar the `url` crate implements, a function of the characters alone.
pub uninterp spec fn url_parse_ok(s: Seq<char>) -> bool;

/// Declares url::Url, the url crate's parsed-URL type, so that values of
/// it can be carried through; nothing inside one is visible here.
#[verifier::external_type_specification]
#[verifier::external_body]
pub struct ExUrl(url::Url);

/// Declares url::ParseError, the url crate's parse-failure type; it is
/// only ever dropped in favour of the library's own report.
#[verifier::external_type_specification]
#[verifier::external_body]
pub struct ExUrlParseError(url::ParseError);

/// Relies on url::Url::parse: parsing an absolute URL from a string is
/// deterministic in the string, and returns `Err` exactly on strings the
/// URL grammar refuses.
pub assume_specification[ url::Url::parse ](input: &str) -> (r: Result<
    url::Url,
    url::ParseError,
>)
    ensures
        r is Ok <==> url_parse_ok(input@),
;

/// Parses a distribution URL, reporting failure without the outside
/// crate's error type.
pub fn parse_url(url: &String) -> (r: Result<url::Url, String>)
    ensures
        r is Ok <==> url_parse_ok(url@),
        r is Err ==> (r matches Err(msg) && msg@ == "failed to parse url: "@ + url@),
{
    match url::Url::parse(url.as_str()) {
        Ok(parsed) => Ok(parsed),
        Err(_) => {
            let mut msg: String = "failed to parse url: ".to_owned();
            msg.append(url.as_str());
            Err(msg)
        }
    }
}

/// What `str::to_lowercase` returns for a string: the Unicode lowercase
/// mapping of its characters, a function of the characters alone.
pub uninterp spec fn lower_of(s: Seq<char>) -> Seq<char>;

/// Relies on str::to_lowercase: the result depends on the input
/// characters alone.
#[verifier::external_body]
pub(crate) fn lowercase(s: &String) -> (r: String)
    ensures
        r@ == lower_of(s@),
{
    s.to_lowercase()
}

/// A collaborator command exited unsuccessfully; its own diagnostics pass
/// through on the inherited standard streams.
#[derive(Clone, Copy, PartialEq, Eq, Structural, Debug)]
pub struct CommandError;

/// Runs one collaborator command line. Implementations spawn processes,
/// so they live with the unverified plumbing around the library.
pub trait Runner {
    fn run_command(&self, args: &[String]) -> Result<(), CommandError>;
}

/// The collaborator command lines the pipeline invokes.
#[derive(Clone, Copy)]
pub enum CommandRunner {
    Rustup,
    Cargo,
    Tar,
}

impl CommandRunner {
    /// The program this runner invokes and the label used for it in
    /// diagnostics.
    pub fn command_name(&self) -> (r: (&'static str, &'static str))
        ensures
            match self {
                CommandRunner::Rustup => r.0@ == "rustup"@ && r.1@ == "rustup"@,
                CommandRunner::Cargo => r.0@ == "cargo"@ && r.1@ == "cargo"@,
                CommandRunner::Tar => r.0@ == "tar"@ && r.1@ == "package"@,
            },
    {
        match self {
            CommandRunner::Rustup => ("rustup", "rustup"),
            CommandRunner::Cargo => ("cargo", "cargo"),
            CommandRunner::Tar => ("tar", "package"),
        }
    }
}

} // verus!
