use vstd::prelude::*;

use crate::text::{
    join_with_spaces, law_split_on_space, lemma_split_nonempty, split_on_space, split_spaces,
};

verus! {

/// How to start one language server: the program and its arguments.
#[derive(Clone, Debug, PartialEq)]
pub struct LspDescription {
    pub lsp_name: String,
    pub lsp_args: Vec<String>,
}

/// The description that one `--server` value stands for: the value is
/// split at every space; the first piece names the program and the
/// others are its arguments.
pub open spec fn describes(d: &LspDescription, server: Seq<char>) -> bool {
    let pieces = split_on_space(server);
    &&& d.lsp_name@ == pieces[0]
    &&& d.lsp_args@.map_values(|a: String| a@) == pieces.drop_first()
}

/// Turns the `--server` values of the command line into server
/// descriptions, in the order given. Splitting always yields a first
/// piece, so the result is always `Ok`.
pub fn cli(server: Vec<String>) -> (res: Result<Vec<LspDescription>, ()>)
    ensures
        res matches Ok(lsps) && lsps.len() == server.len() && forall|i: int|
            0 <= i < server.len() ==> describes(#[trigger] &lsps[i], server[i]@),
{
    let mut lsps: Vec<LspDescription> = Vec::new();
    let mut j: usize = 0;
    while j < server.len()
        invariant
            j <= server.len(),
            lsps.len() == j,
            forall|i: int| 0 <= i < j ==> describes(#[trigger] &lsps[i], server[i]@),
        decreases server.len() - j,
    {
        let server_instance = split_spaces(server[j].as_str());
        let ghost pieces = split_on_space(server[j as int]@);
        proof {
            lemma_split_nonempty(server[j as int]@);
        }
        assert(server_instance@.map_values(|x: String| x@)[0] == server_instance@[0]@);
        if server_instance.len() == 0 {
            return Err(());
        }
        let lsp_name = server_instance[0].clone();
        let mut lsp_args: Vec<String> = Vec::new();
        let mut i: usize = 1;
        while i < server_instance.len()
            invariant
                1 <= i <= server_instance.len(),
                server_instance@.map_values(|x: String| x@) == pieces,
                lsp_args.len() == i - 1,
                forall|j: int| 0 <= j < i - 1 ==> #[trigger] lsp_args@[j]@ == pieces[j + 1],
            decreases server_instance.len() - i,
        {
            assert(pieces[i as int] == server_instance@[i as int]@);
            let ghost before = lsp_args@;
            let a = server_instance[i].clone();
            assert(a@ == pieces[i as int]);
            lsp_args.push(a);
            assert(lsp_args@ == before.push(a));
            i = i + 1;
        }
        assert(lsp_args@.map_values(|a: String| a@) =~= pieces.drop_first());
        let d = LspDescription { lsp_name, lsp_args };
        lsps.push(d);
        assert(describes(&lsps[j as int], server[j as int]@));
        j = j + 1;
    }
    Ok(lsps)
}

/// A server description holds the `--server` value cut at its spaces and
/// nowhere else: the program name followed by the arguments, joined with
/// single spaces, gives back the value, and none of them holds a space.
pub proof fn law_description_cuts_at_spaces(d: &LspDescription, server: Seq<char>)
    requires
        describes(d, server),
    ensures
        join_with_spaces(seq![d.lsp_name@] + d.lsp_args@.map_values(|a: String| a@)) == server,
        !d.lsp_name@.contains(' '),
        forall|i: int| 0 <= i < d.lsp_args.len() ==> !(#[trigger] d.lsp_args@[i]@).contains(' '),
{
    law_split_on_space(server);
    let pieces = split_on_space(server);
    assert(seq![pieces[0]] + pieces.drop_first() =~= pieces);
    assert forall|i: int| 0 <= i < d.lsp_args.len() implies !(#[trigger] d.lsp_args@[i]@).contains(' ') by {
        assert(d.lsp_args@.map_values(|a: String| a@)[i] == pieces[i + 1]);
    }
}

} // verus!
