//! External commands as data: what to run, and what their output means.

use vstd::prelude::*;
use crate::context::TARGET;
use crate::error::{output_view, ErrorView, InstallError};
use crate::text::{str_views, string_views, trim, trimmed};

verus! {

/// A program to run with its arguments.
#[derive(Debug)]
pub struct Cmd {
    pub program: String,
    pub args: Vec<String>,
}

impl View for Cmd {
    type V = (Seq<char>, Seq<Seq<char>>);

    open spec fn view(&self) -> (Seq<char>, Seq<Seq<char>>) {
        (self.program@, string_views(self.args@))
    }
}

/// Owned copies of `args`.
pub fn owned_all(args: &[&str]) -> (r: Vec<String>)
    ensures
        string_views(r@) == str_views(args@),
{
    let mut r: Vec<String> = Vec::new();
    let mut i: usize = 0;
    while i < args.len()
        invariant
            i <= args@.len(),
            string_views(r@) == str_views(args@).subrange(0, i as int),
        decreases args@.len() - i,
    {
        let ghost old_r = r@;
        let s = String::from_str(args[i]);
        assert(s@ == args@[i as int]@);
        r.push(s);
        proof {
            assert(r@ == old_r.push(s));
            assert(string_views(r@) =~= string_views(old_r).push(s@));
            assert(str_views(args@).subrange(0, i + 1) =~= str_views(args@).subrange(0, i as int).push(args@[i as int]@));
        }
        i += 1;
    }
    assert(str_views(args@).subrange(0, args@.len() as int) =~= str_views(args@));
    r
}

impl Cmd {
    pub fn new(program: &str, args: &[&str]) -> (r: Cmd)
        ensures
            r@ == (program@, str_views(args@)),
    {
        Cmd { program: String::from_str(program), args: owned_all(args) }
    }
}

/// The output of a command as a plain result: `Ok` with the output, or
/// `Err` with the failure.
pub open spec fn string_result_view(r: &Result<String, InstallError>) -> Result<Seq<char>, ErrorView> {
    match r {
        Ok(s) => Ok(s@),
        Err(e) => Err(e.view()),
    }
}

/// The invocation that runs `args` inside the target root: `chroot /mnt args...`.
pub fn run_chroot(args: &[&str]) -> (r: Cmd)
    ensures
        r@ == ("chroot"@, seq![TARGET@] + str_views(args@)),
{
    let mut all: Vec<String> = Vec::new();
    all.push(String::from_str(TARGET));
    let mut rest = owned_all(args);
    let ghost first = all@;
    all.append(&mut rest);
    proof {
        assert(string_views(all@) =~= seq![TARGET@] + str_views(args@));
    }
    Cmd { program: String::from_str("chroot"), args: all }
}

/// What `blkid -s UUID -o value <partition>` told: the trimmed UUID, or why
/// there is none.
pub open spec fn uuid_from(blkid: Result<Seq<char>, Seq<char>>, partition: Seq<char>) -> Result<
    Seq<char>,
    ErrorView,
> {
    match blkid {
        Err(m) => Err(ErrorView::CommandFailed(m)),
        Ok(out) => if trim(out).len() == 0 {
            Err(ErrorView::MissingUuid(partition))
        } else {
            Ok(trim(out))
        },
    }
}

/// The UUID of `partition`, from the outcome of running
/// `blkid -s UUID -o value <partition>`.
pub fn block_device_uuid(blkid: &Result<String, String>, partition: &str) -> (r: Result<
    String,
    InstallError,
>)
    ensures
        string_result_view(&r) == uuid_from(output_view(blkid), partition@),
{
    match blkid {
        Err(m) => Err(InstallError::CommandFailed(m.clone())),
        Ok(out) => {
            let uuid = trimmed(out.as_str());
            if uuid.as_str().unicode_len() == 0 {
                Err(InstallError::MissingUuid(String::from_str(partition)))
            } else {
                Ok(uuid)
            }
        },
    }
}

/// The arguments of `blkid` that read a partition's UUID.
pub fn blkid_command(partition: &str) -> (r: Cmd)
    ensures
        r@ == ("blkid"@, seq!["-s"@, "UUID"@, "-o"@, "value"@, partition@]),
{
    let r = Cmd::new("blkid", &["-s", "UUID", "-o", "value", partition]);
    assert(r@.1 =~= seq!["-s"@, "UUID"@, "-o"@, "value"@, partition@]);
    r
}

} // verus!
