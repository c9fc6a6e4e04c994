//! The result reporter: renders an execution result as the text the tool
//! prints — an `OUTPUT` section with every captured output chunk in order,
//! then an `ERRORS` section with every captured error chunk in order,
//! nothing transformed.

use vstd::prelude::*;

use crate::docker::ExecutionResult;
use crate::parse::strs_model;

verus! {

/// All the chunks, one after another, unchanged and unseparated.
pub open spec fn concat_all(items: Seq<Seq<char>>) -> Seq<char>
    decreases items.len(),
{
    if items.len() == 0 {
        Seq::empty()
    } else {
        items[0] + concat_all(items.subrange(1, items.len() as int))
    }
}

/// The report text: the output chunks under `OUTPUT`, a separating blank
/// line, then the error chunks under `ERRORS`.
pub open spec fn rendered(out: Seq<Seq<char>>, err: Seq<Seq<char>>) -> Seq<char> {
    "OUTPUT\n"@ + concat_all(out) + "\n\n"@ + "ERRORS\n"@ + concat_all(err)
}

/// Appends every chunk of `items`, in order, to `dst`.
fn append_all(dst: &mut String, items: &Vec<String>)
    ensures
        final(dst)@ == old(dst)@ + concat_all(strs_model(items@)),
{
    let ghost all = strs_model(items@);
    let n = items.len();
    let mut i: usize = 0;
    proof {
        assert(old(dst)@ + Seq::<char>::empty() =~= old(dst)@);
        assert(all.subrange(0, n as int) =~= all);
    }
    while i < n
        invariant
            i <= n,
            n == items@.len(),
            all == strs_model(items@),
            dst@ + concat_all(all.subrange(i as int, n as int)) == old(dst)@ + concat_all(all),
        decreases n - i,
    {
        let ghost sub = all.subrange(i as int, n as int);
        dst.append(items[i].as_str());
        proof {
            assert(sub[0] == items@[i as int]@);
            assert(sub.subrange(1, sub.len() as int) =~= all.subrange(i + 1, n as int));
        }
        i += 1;
    }
    proof {
        assert(all.subrange(n as int, n as int) =~= Seq::<Seq<char>>::empty());
        assert(dst@ + Seq::<char>::empty() =~= dst@);
    }
}

/// Renders a result for display, exactly as `rendered` says.
pub fn render(result: &ExecutionResult) -> (r: String)
    ensures
        r@ == rendered(result.out_model(), result.err_model()),
{
    let mut r = String::from_str("OUTPUT\n");
    append_all(&mut r, &result.stdout);
    r.append("\n\n");
    r.append("ERRORS\n");
    append_all(&mut r, &result.stderr);
    proof {
        assert(r@ =~= rendered(result.out_model(), result.err_model()));
    }
    r
}

} // verus!
