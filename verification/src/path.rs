//! Resolution of the per-application log directory: the platform's local
//! application-data directory, then the program name, then the literal
//! segment `log`.

use vstd::prelude::*;
use crate::errors::Error;

verus! {

/// The log directory derived from a base directory, a separator and a
/// program name: `base`, separator, program name, separator, `log`.
pub open spec fn log_dir_spec(base: Seq<char>, sep: Seq<char>, name: Seq<char>) -> Seq<char> {
    base + sep + name + sep + "log"@
}

/// Relies on `dirs::data_local_dir`: the platform's local application-data
/// directory (`%LOCALAPPDATA%`, `$XDG_DATA_HOME` or its default, or
/// `$HOME/Library/Application Support`), or `None` where the platform
/// exposes none. A directory whose path is not valid UTF-8 is treated as
/// absent, so that later path-to-text conversion cannot panic.
#[verifier::external_body]
fn data_local_dir_utf8() -> Option<String> {
    match dirs::data_local_dir() {
        Some(p) => p.to_str().map(|s| s.to_owned()),
        None => None,
    }
}

/// Relies on `std::path::MAIN_SEPARATOR_STR`: the platform's primary path
/// separator, `/` on Unix-like platforms and `\` on Windows.
#[verifier::external_body]
fn path_separator() -> (r: &'static str)
    ensures
        r@ == "/"@ || r@ == "\\"@,
{
    std::path::MAIN_SEPARATOR_STR
}

/// Appends the program name and the literal segment `log` to the base
/// directory, each preceded by the separator.
pub fn join_log_dir(base: &str, sep: &str, program_name: &str) -> (r: String)
    ensures
        r@ == log_dir_spec(base@, sep@, program_name@),
{
    let mut r: String = base.to_owned();
    r.append(sep);
    r.append(program_name);
    r.append(sep);
    r.append("log");
    proof {
        assert(r@ =~= log_dir_spec(base@, sep@, program_name@));
    }
    r
}

/// Computes the log directory for the given program name, or `None` where
/// the platform exposes no local application-data directory. The base
/// directory and the separator come from the host platform; whatever they
/// are, the result is the base with the program name and `log` appended.
/// A program name is a non-empty identifier, so the empty name is outside
/// this function's domain; `init_logger` rejects it before resolving.
pub fn get_log_path(program_name: &str) -> (r: Option<String>)
    requires
        program_name@.len() > 0,
    ensures
        r matches Some(p) ==> exists|base: Seq<char>| #![auto]
            p@ == log_dir_spec(base, "/"@, program_name@)
            || p@ == log_dir_spec(base, "\\"@, program_name@),
{
    match data_local_dir_utf8() {
        Some(base) => {
            let sep = path_separator();
            let dir = join_log_dir(base.as_str(), sep, program_name);
            proof {
                assert(dir@ == log_dir_spec(base@, "/"@, program_name@)
                    || dir@ == log_dir_spec(base@, "\\"@, program_name@));
            }
            Some(dir)
        },
        None => None,
    }
}

/// Turns a resolved log directory into a successful result, and its absence
/// into the `NoLogPathFound` error.
pub fn resolve_or_error(resolved: Option<String>) -> (r: Result<String, Error>)
    ensures
        match resolved {
            Some(p) => r matches Ok(q) && q@ == p@,
            None => r matches Err(e) && e is NoLogPathFound,
        },
{
    match resolved {
        Some(p) => Ok(p),
        None => Err(Error::NoLogPathFound),
    }
}

/// The part of `path` after its last occurrence of `sep` (the whole of
/// `path` if `sep` does not occur).
pub open spec fn last_segment(path: Seq<char>, sep: char) -> Seq<char>
    decreases path.len(),
{
    if path.len() == 0 {
        path
    } else if path.last() == sep {
        Seq::<char>::empty()
    } else {
        last_segment(path.drop_last(), sep).push(path.last())
    }
}

/// `path` with its last segment and the separator before it removed (empty
/// if `sep` does not occur).
pub open spec fn drop_last_segment(path: Seq<char>, sep: char) -> Seq<char>
    decreases path.len(),
{
    if path.len() == 0 {
        path
    } else if path.last() == sep {
        path.drop_last()
    } else {
        drop_last_segment(path.drop_last(), sep)
    }
}

proof fn lemma_segment_extend(prefix: Seq<char>, tail: Seq<char>, sep: char)
    requires
        !tail.contains(sep),
    ensures
        last_segment(prefix + tail, sep) == last_segment(prefix, sep) + tail,
        drop_last_segment(prefix + tail, sep) == drop_last_segment(prefix, sep),
    decreases tail.len(),
{
    if tail.len() == 0 {
        assert(prefix + tail =~= prefix);
        assert(last_segment(prefix, sep) + tail =~= last_segment(prefix, sep));
    } else {
        let shorter = tail.drop_last();
        let x = tail.last();
        assert(x != sep);
        assert(!shorter.contains(sep)) by {
            if shorter.contains(sep) {
                let i = choose|i: int| 0 <= i < shorter.len() && shorter[i] == sep;
                assert(tail[i] == sep);
            }
        }
        lemma_segment_extend(prefix, shorter, sep);
        let joined = prefix + shorter;
        assert(prefix + tail =~= joined.push(x));
        assert(joined.push(x).drop_last() =~= joined);
        assert(last_segment(joined.push(x), sep) == last_segment(joined, sep).push(x));
        assert(last_segment(prefix, sep) + tail
            =~= (last_segment(prefix, sep) + shorter).push(x));
        assert(drop_last_segment(joined.push(x), sep) == drop_last_segment(joined, sep));
    }
}

proof fn lemma_segment_after_sep(prefix: Seq<char>, sep: char)
    ensures
        last_segment(prefix.push(sep), sep) == Seq::<char>::empty(),
        drop_last_segment(prefix.push(sep), sep) == prefix,
{
    assert(prefix.push(sep).last() == sep);
    assert(prefix.push(sep).drop_last() =~= prefix);
}

/// For every non-empty program name that contains no separator character,
/// the resolved log directory's final two segments are exactly the program
/// name and `log`, and what stands before them is the base directory.
pub proof fn lemma_log_dir_segments(base: Seq<char>, sep: Seq<char>, name: Seq<char>)
    requires
        sep == "/"@ || sep == "\\"@,
        name.len() > 0,
        !name.contains(sep[0]),
    ensures
        last_segment(log_dir_spec(base, sep, name), sep[0]) == "log"@,
        last_segment(drop_last_segment(log_dir_spec(base, sep, name), sep[0]), sep[0]) == name,
        drop_last_segment(drop_last_segment(log_dir_spec(base, sep, name), sep[0]), sep[0])
            == base,
{
    reveal_strlit("/");
    reveal_strlit("\\");
    reveal_strlit("log");
    let c = sep[0];
    assert(sep =~= seq![c]);
    let with_name = base + sep + name;
    let with_second_sep = base + sep + name + sep;
    let full = log_dir_spec(base, sep, name);
    assert(!"log"@.contains(c)) by {
        if "log"@.contains(c) {
            let i = choose|i: int| 0 <= i < "log"@.len() && "log"@[i] == c;
            assert("log"@[0] == 'l' && "log"@[1] == 'o' && "log"@[2] == 'g');
        }
    }
    lemma_segment_extend(with_second_sep, "log"@, c);
    assert(with_second_sep =~= with_name.push(c));
    lemma_segment_after_sep(with_name, c);
    assert(last_segment(full, c) =~= "log"@);
    assert(drop_last_segment(full, c) == with_name);
    assert(base + sep =~= base.push(c));
    assert(with_name =~= base.push(c) + name);
    lemma_segment_extend(base.push(c), name, c);
    lemma_segment_after_sep(base, c);
    assert(last_segment(with_name, c) =~= name);
    assert(drop_last_segment(with_name, c) == base);
}

} // verus!
