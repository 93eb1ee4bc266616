//! The installer invocation: the exact argument vector handed to the
//! external `install` program for one request, the verbose echo of the
//! command, and the message reported when the program fails.

use vstd::prelude::*;
use crate::metadata::mode_string_of;
use crate::metadata::OwnershipTriple;
use crate::numfmt::decimal_of;

verus! {

/// The argument list handed to the installer for one request:
/// `-c -o UID -g GID -m MODE -- SRC DST`, with the ids in decimal and the
/// masked mode in octal.
pub open spec fn install_args_of(
    src: Seq<char>,
    dst: Seq<char>,
    uid: u32,
    gid: u32,
    mode: u32,
) -> Seq<Seq<char>> {
    seq![
        "-c"@,
        "-o"@,
        decimal_of(uid as nat),
        "-g"@,
        decimal_of(gid as nat),
        "-m"@,
        mode_string_of(mode),
        "--"@,
        src,
        dst,
    ]
}

/// The name of the external installer program.
pub fn installer_program() -> (r: &'static str)
    ensures
        r@ == "install"@,
{
    "install"
}

/// Builds the exact argument vector for installing `src` as `dst` with
/// the metadata in `triple`.
pub fn install_args(src: &str, dst: &str, triple: &OwnershipTriple) -> (r: Vec<String>)
    ensures
        r@.map_values(|s: String| s@) == install_args_of(
            src@,
            dst@,
            triple.uid,
            triple.gid,
            triple.mode,
        ),
{
    let mut v: Vec<String> = Vec::new();
    v.push("-c".to_owned());
    v.push("-o".to_owned());
    v.push(triple.uid_string());
    v.push("-g".to_owned());
    v.push(triple.gid_string());
    v.push("-m".to_owned());
    v.push(triple.mode_string());
    v.push("--".to_owned());
    v.push(src.to_owned());
    v.push(dst.to_owned());
    proof {
        assert(v@.map_values(|s: String| s@) =~= install_args_of(
            src@,
            dst@,
            triple.uid,
            triple.gid,
            triple.mode,
        ));
    }
    v
}

/// A string quoted for the verbose echo of a command.
pub open spec fn quoted(s: Seq<char>) -> Seq<char> {
    seq!['"'] + s + seq!['"']
}

/// The verbose echo of a command: the program and each argument quoted,
/// separated by single spaces, in the exact order issued.
pub open spec fn command_display_of(program: Seq<char>, args: Seq<Seq<char>>) -> Seq<char>
    decreases args.len(),
{
    if args.len() == 0 {
        quoted(program)
    } else {
        command_display_of(program, args.drop_last()) + seq![' '] + quoted(args.last())
    }
}

/// Renders a command for the verbose echo, exactly as `command_display_of`
/// describes.
pub fn command_display(program: &str, args: &Vec<String>) -> (r: String)
    ensures
        r@ == command_display_of(program@, args@.map_values(|s: String| s@)),
{
    proof {
        reveal_strlit("\"");
        reveal_strlit(" \"");
        assert("\""@ =~= seq!['"']);
        assert(" \""@ =~= seq![' ', '"']);
    }
    let mut out: String = "\"".to_owned();
    out.append(program);
    out.append("\"");
    proof {
        let ghost mapped = args@.map_values(|s: String| s@);
        assert(out@ =~= quoted(program@));
        assert(mapped.subrange(0, 0) =~= Seq::<Seq<char>>::empty());
        assert(out@ == command_display_of(program@, mapped.subrange(0, 0)));
    }
    let n = args.len();
    let mut i: usize = 0;
    while i < n
        invariant
            i <= n,
            n == args@.len(),
            out@ == command_display_of(
                program@,
                args@.map_values(|s: String| s@).subrange(0, i as int),
            ),
        decreases n - i,
    {
        out.append(" \"");
        out.append(args[i].as_str());
        out.append("\"");
        proof {
            reveal_strlit("\"");
            reveal_strlit(" \"");
            assert("\""@ =~= seq!['"']);
            assert(" \""@ =~= seq![' ', '"']);
            let ghost mapped = args@.map_values(|s: String| s@);
            let ghost pre = mapped.subrange(0, i as int);
            let ghost cur = mapped.subrange(0, i + 1);
            assert(cur.drop_last() =~= pre);
            assert(cur.last() == args@[i as int]@);
            assert(out@ =~= command_display_of(program@, pre) + seq![' '] + quoted(cur.last()));
        }
        i = i + 1;
    }
    proof {
        assert(args@.map_values(|s: String| s@).subrange(0, n as int) =~= args@.map_values(
            |s: String| s@,
        ));
    }
    out
}

/// The message reported when a reference or destination file cannot be
/// examined; `cause` is the underlying error's text.
pub fn stat_failed_message(fname: &str, cause: &str) -> (r: String)
    ensures
        r@ == "Could not examine "@ + fname@ + ": "@ + cause@,
{
    let mut out: String = "Could not examine ".to_owned();
    out.append(fname);
    out.append(": ");
    out.append(cause);
    out
}

/// The message reported when the installer cannot be started at all;
/// `cause` is the underlying error's text.
pub fn run_failed_message(cause: &str) -> (r: String)
    ensures
        r@ == "Could not run install: "@ + cause@,
{
    let mut out: String = "Could not run install: ".to_owned();
    out.append(cause);
    out
}

/// The message reported when the installer ran but exited with failure.
pub fn install_failed_message(src: &str, dst: &str) -> (r: String)
    ensures
        r@ == "Could not install "@ + src@ + " as "@ + dst@,
{
    let mut out: String = "Could not install ".to_owned();
    out.append(src);
    out.append(" as ");
    out.append(dst);
    out
}

} // verus!
