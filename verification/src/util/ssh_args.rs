//! SSH argument parsing for hostname extraction.
//!
//! Options and their values are skipped; the first non-option argument is
//! the destination, and the remaining ones are the remote command.

use vstd::prelude::*;

use crate::text::{after_last_at, chars_of, owned, rsplit_once_of, starts_with, starts_with_exec, str_eq, string_from, sviews};

verus! {

/// SSH options that consume the next argument as their value.
pub open spec fn ssh_value_options() -> Seq<Seq<char>> {
    seq![
        "-B"@, "-b"@, "-c"@, "-D"@, "-E"@, "-e"@, "-F"@, "-I"@, "-i"@, "-J"@, "-L"@, "-l"@,
        "-m"@, "-O"@, "-o"@, "-p"@, "-Q"@, "-R"@, "-S"@, "-W"@, "-w"@,
    ]
}

/// `a` is an option that takes a separate value.
pub open spec fn is_value_option(a: Seq<char>) -> bool {
    ssh_value_options().contains(a)
}

/// The destination among ssh `args`: the first argument that is neither an
/// option nor the value of an option; `skip` says the first argument is an
/// option value.
pub open spec fn destination_from(args: Seq<Seq<char>>, skip: bool) -> Option<Seq<char>>
    decreases args.len(),
{
    if args.len() == 0 {
        None
    } else if skip {
        destination_from(args.drop_first(), false)
    } else if is_value_option(args[0]) {
        destination_from(args.drop_first(), true)
    } else if starts_with(args[0], "-"@) {
        destination_from(args.drop_first(), false)
    } else {
        Some(args[0])
    }
}

/// The destination among ssh `args`.
pub open spec fn ssh_destination(args: Seq<Seq<char>>) -> Option<Seq<char>> {
    destination_from(args, false)
}

/// The options of OpenSSH's `ssh` that take their argument as the next
/// word: an option `o` among them, followed by any value `v`, leaves the
/// destination to the arguments after `v` (so `["-l", "alice", "myhost"]`
/// names `myhost`); a flag that takes no value (e.g. `-v`, `-4`, `-N`)
/// leaves it to the arguments after the flag; and a first word that is not
/// an option is the destination.
pub proof fn law_option_values_are_skipped(o: Seq<char>, v: Seq<char>, rest: Seq<Seq<char>>)
    requires
        o == "-B"@ || o == "-b"@ || o == "-c"@ || o == "-D"@ || o == "-E"@ || o == "-e"@ || o == "-F"@
            || o == "-I"@ || o == "-i"@ || o == "-J"@ || o == "-L"@ || o == "-l"@ || o == "-m"@ || o
            == "-O"@ || o == "-o"@ || o == "-p"@ || o == "-Q"@ || o == "-R"@ || o == "-S"@ || o == "-W"@
            || o == "-w"@,
    ensures
        ssh_destination(seq![o, v] + rest) == ssh_destination(rest),
{
    let os = ssh_value_options();
    assert(os[0] == "-B"@ && os[1] == "-b"@ && os[2] == "-c"@ && os[3] == "-D"@ && os[4] == "-E"@);
    assert(os[5] == "-e"@ && os[6] == "-F"@ && os[7] == "-I"@ && os[8] == "-i"@ && os[9] == "-J"@);
    assert(os[10] == "-L"@ && os[11] == "-l"@ && os[12] == "-m"@ && os[13] == "-O"@ && os[14] == "-o"@);
    assert(os[15] == "-p"@ && os[16] == "-Q"@ && os[17] == "-R"@ && os[18] == "-S"@ && os[19] == "-W"@);
    assert(os[20] == "-w"@);
    assert(os.contains(o));
    let all = seq![o, v] + rest;
    assert(all[0] == o);
    assert(is_value_option(all[0]));
    assert(all.drop_first().len() > 0);
    assert(all.drop_first().drop_first() =~= rest);
    assert(destination_from(all, false) == destination_from(all.drop_first(), true));
    assert(destination_from(all.drop_first(), true) == destination_from(rest, false));
}

/// A flag that takes no value is skipped, and the first word that is not
/// an option is the destination.
pub proof fn law_flags_and_destination(a: Seq<char>, rest: Seq<Seq<char>>)
    requires
        a == "-v"@ || a == "-4"@ || a == "-6"@ || a == "-A"@ || a == "-N"@ || a == "-T"@ || a == "-t"@
            || a == "-q"@ || a == "-C"@ || a == "-X"@ || a == "-Y"@ || a == "-f"@ || a == "-g"@ || a == "-K"@
            || a == "-k"@ || a == "-M"@ || a == "-n"@ || a == "-s"@ || a == "-V"@ || a == "-x"@ || a == "-y"@
            || a == "-a"@ || a == "-G"@,
    ensures
        ssh_destination(seq![a] + rest) == ssh_destination(rest),
        forall|d: Seq<char>| d.len() > 0 && d[0] != '-' ==> ssh_destination(#[trigger] (seq![d] + rest)) == Some(d),
{
    reveal_strlit("-");
    let os = ssh_value_options();
    reveal_strlit("-v");
    reveal_strlit("-4");
    reveal_strlit("-6");
    reveal_strlit("-A");
    reveal_strlit("-N");
    reveal_strlit("-T");
    reveal_strlit("-t");
    reveal_strlit("-q");
    reveal_strlit("-C");
    reveal_strlit("-X");
    reveal_strlit("-Y");
    reveal_strlit("-f");
    reveal_strlit("-g");
    reveal_strlit("-K");
    reveal_strlit("-k");
    reveal_strlit("-M");
    reveal_strlit("-n");
    reveal_strlit("-s");
    reveal_strlit("-V");
    reveal_strlit("-x");
    reveal_strlit("-y");
    reveal_strlit("-a");
    reveal_strlit("-G");
    reveal_strlit("-B");
    reveal_strlit("-b");
    reveal_strlit("-c");
    reveal_strlit("-D");
    reveal_strlit("-E");
    reveal_strlit("-e");
    reveal_strlit("-F");
    reveal_strlit("-I");
    reveal_strlit("-i");
    reveal_strlit("-J");
    reveal_strlit("-L");
    reveal_strlit("-l");
    reveal_strlit("-m");
    reveal_strlit("-O");
    reveal_strlit("-o");
    reveal_strlit("-p");
    reveal_strlit("-Q");
    reveal_strlit("-R");
    reveal_strlit("-S");
    reveal_strlit("-W");
    reveal_strlit("-w");
    assert(!os.contains(a)) by {
        if os.contains(a) {
            let k = choose|k: int| 0 <= k < os.len() && os[k] == a;
            assert(os[k][1] == a[1]);
        }
    }
    let all = seq![a] + rest;
    assert(all[0] == a);
    assert(starts_with(a, "-"@)) by {
        assert(a[0] == '-');
        assert(a.take(1) =~= "-"@);
    }
    assert(all.drop_first() =~= rest);
    assert forall|d: Seq<char>| d.len() > 0 && d[0] != '-' implies ssh_destination(#[trigger] (seq![d] + rest)) == Some(d) by {
        let x = seq![d] + rest;
        assert(x[0] == d);
        if starts_with(d, "-"@) {
            assert(d[0] == "-"@[0]);
        }
        if os.contains(d) {
            let k = choose|k: int| 0 <= k < os.len() && os[k] == d;
            reveal_strlit("-B");
        }
    }
}

/// Is `a` one of the value-taking options; also whether `a` starts with one.
fn option_match(a: &str) -> (r: (bool, bool))
    ensures
        r.0 == is_value_option(a@),
        r.1 == exists|k: int|
            0 <= k < ssh_value_options().len() && starts_with(a@, #[trigger] ssh_value_options()[k]),
{
    let opts: [&str; 21] = [
        "-B", "-b", "-c", "-D", "-E", "-e", "-F", "-I", "-i", "-J", "-L", "-l", "-m", "-O", "-o",
        "-p", "-Q", "-R", "-S", "-W", "-w",
    ];
    let ghost os = ssh_value_options();
    assert(opts@.map_values(|x: &str| x@) =~= os);
    let v = chars_of(a);
    let mut exact = false;
    let mut prefix = false;
    let mut k: usize = 0;
    while k < 21
        invariant
            k <= 21,
            os == ssh_value_options(),
            opts@.map_values(|x: &str| x@) == os,
            v@ == a@,
            exact == exists|j: int| 0 <= j < k && os[j] == a@,
            prefix == exists|j: int| 0 <= j < k && starts_with(a@, #[trigger] os[j]),
        decreases 21 - k,
    {
        assert(os[k as int] == opts@[k as int]@);
        if str_eq(opts[k], a) {
            exact = true;
        }
        let o = chars_of(opts[k]);
        if starts_with_exec(v.as_slice(), o.as_slice()) {
            prefix = true;
        }
        k = k + 1;
    }
    proof {
        if is_value_option(a@) {
            let j = choose|j: int| 0 <= j < os.len() && os[j] == a@;
        }
    }
    (exact, prefix)
}

/// Extract the target destination (`[user@]hostname`) from SSH command
/// arguments: options and their values are skipped, the first non-option
/// argument is returned, and `None` when there is none.
pub fn extract_ssh_host(args: &[String]) -> (r: Option<String>)
    ensures
        match ssh_destination(sviews(args@)) {
            Some(d) => r matches Some(s) && s@ == d,
            None => r is None,
        },
{
    let ghost all = sviews(args@);
    let mut skip_next = false;
    let mut i: usize = 0;
    assert(all.skip(0) =~= all);
    while i < args.len()
        invariant
            i <= args.len(),
            all == sviews(args@),
            ssh_destination(all) == destination_from(all.skip(i as int), skip_next),
        decreases args.len() - i,
    {
        let ghost t = all.skip(i as int);
        assert(t.drop_first() =~= all.skip(i + 1));
        assert(t[0] == args@[i as int]@);
        let a = args[i].as_str();
        if skip_next {
            skip_next = false;
        } else {
            let (exact, prefix) = option_match(a);
            let v = chars_of(a);
            let dash = chars_of("-");
            let is_dash = starts_with_exec(v.as_slice(), dash.as_slice());
            if exact {
                skip_next = true;
            } else if is_dash && v.len() > 2 && prefix {
                // option written together with its value (e.g. -p22)
            } else if is_dash {
                // flag without a value (e.g. -v)
            } else {
                return Some(owned(a));
            }
        }
        i = i + 1;
    }
    assert(all.skip(args.len() as int) =~= Seq::<Seq<char>>::empty());
    None
}

/// Extract only the hostname portion from a destination string: the text
/// after the last `'@'`, or the whole destination when there is none.
pub fn extract_hostname_from_destination(destination: &str) -> (r: String)
    ensures
        r@ == after_last_at(destination@),
{
    let v = chars_of(destination);
    match rsplit_once_of(v.as_slice(), '@') {
        Some((_, h)) => string_from(h.as_slice()),
        None => owned(destination),
    }
}

} // verus!
