use crate::text::{join, join_with, strings_view};
use vstd::prelude::*;

verus! {

/// `command` followed by `args`, separated by single spaces.
pub fn full_command(command: String, args: Vec<String>) -> (r: String)
    ensures
        r@ == if args@.len() == 0 {
            command@
        } else {
            command@ + " "@ + join_with(strings_view(args@), " "@)
        },
{
    if args.len() == 0 {
        command
    } else {
        let mut r = command;
        r.append(" ");
        let rest = join(&args, " ");
        r.append(rest.as_str());
        r
    }
}

/// The characters Unicode counts as white space.
pub open spec fn is_white_space(c: char) -> bool {
    let n = c as u32;
    ||| 0x09 <= n <= 0x0D
    ||| n == 0x20
    ||| n == 0x85
    ||| n == 0xA0
    ||| n == 0x1680
    ||| 0x2000 <= n <= 0x200A
    ||| n == 0x2028
    ||| n == 0x2029
    ||| n == 0x202F
    ||| n == 0x205F
    ||| n == 0x3000
}

/// Whether `s` holds nothing but white space (what trimming leaves empty).
pub fn is_blank(s: &str) -> (r: bool)
    ensures
        r == forall|i: int| 0 <= i < s@.len() ==> is_white_space(#[trigger] s@[i]),
{
    let v = crate::text::chars_of(s);
    let mut i: usize = 0;
    while i < v.len()
        invariant
            v@ == s@,
            i <= v.len(),
            forall|k: int| 0 <= k < i ==> is_white_space(#[trigger] s@[k]),
        decreases v.len() - i,
    {
        let n = v[i] as u32;
        let ws = (0x09 <= n && n <= 0x0D) || n == 0x20 || n == 0x85 || n == 0xA0 || n == 0x1680
            || (0x2000 <= n && n <= 0x200A) || n == 0x2028 || n == 0x2029 || n == 0x202F || n
            == 0x205F || n == 0x3000;
        if !ws {
            assert(!is_white_space(s@[i as int]));
            return false;
        }
        i = i + 1;
    }
    true
}

/// Whether `fuzix run` prints the captured output itself: only when the
/// session was not already shown in full and the output is not blank.
pub fn prints_output(verbose: bool, output: &str) -> (r: bool)
    ensures
        r == (!verbose && !(forall|i: int| 0 <= i < output@.len() ==> is_white_space(
            #[trigger] output@[i],
        ))),
{
    !verbose && !is_blank(output)
}

} // verus!
