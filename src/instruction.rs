use crate::pubkey::{contains_key, Pubkey};
use vstd::prelude::*;

verus! {

/// One instruction as compiled into a transaction: the position of its
/// program in the account-key list, the positions of its accounts, and its
/// data.
pub struct CompiledInstruction {
    pub program_id_index: u8,
    pub accounts: Vec<u8>,
    pub data: Option<Vec<u8>>,
}

/// The instructions invoked as side effects of the outer instruction at
/// position `index`.
pub struct InnerInstructions {
    pub index: u8,
    pub instructions: Vec<CompiledInstruction>,
}

/// A read-only view of one transaction.
pub struct TransactionInfo {
    pub outer_instructions: Option<Vec<CompiledInstruction>>,
    pub inner_instructions: Option<Vec<InnerInstructions>>,
    pub account_keys: Option<Vec<Pubkey>>,
    pub slot: u64,
}

/// An instruction together with its resolved program id.
pub type IxPair<'a> = (Pubkey, &'a CompiledInstruction);

/// One element of an ordering: the instruction to decode and the inner
/// instructions of the outer instruction it came from.
pub type OrderedInstruction<'a> = (IxPair<'a>, Option<Vec<IxPair<'a>>>);

/// The same element with its inner list seen as a sequence.
pub type OrderedView<'a> = (IxPair<'a>, Option<Seq<IxPair<'a>>>);

/// Everything a decoder is handed for one matched instruction.
pub struct InstructionBundle<'a> {
    pub txn_id: &'a str,
    pub program: Pubkey,
    pub instruction: Option<&'a CompiledInstruction>,
    pub inner_ix: Option<Vec<IxPair<'a>>>,
    pub keys: &'a [Pubkey],
    pub slot: u64,
}

impl<'a> Default for InstructionBundle<'a> {
    /// A bundle with no instruction, no inner instructions and no keys.
    fn default() -> (r: InstructionBundle<'a>)
        ensures
            r.txn_id@ == Seq::<char>::empty(),
            r.program.0@ == Seq::new(32, |i: int| 0u8),
            r.instruction is None,
            r.inner_ix is None,
            r.keys@.len() == 0,
            r.slot == 0,
    {
        let r = InstructionBundle {
            txn_id: "",
            program: Pubkey([0u8; 32]),
            instruction: None,
            inner_ix: None,
            keys: &[],
            slot: 0,
        };
        proof {
            reveal_strlit("");
            assert(r.program.0@ =~= Seq::new(32, |i: int| 0u8));
        }
        r
    }
}

/// `ix` paired with its program id, looked up in `keys`.
pub open spec fn resolve<'a>(keys: Seq<Pubkey>, ix: &'a CompiledInstruction) -> IxPair<'a> {
    (keys[ix.program_id_index as int], ix)
}

/// Each instruction of `ixs` paired with its program id.
pub open spec fn resolve_all<'a>(keys: Seq<Pubkey>, ixs: &'a Vec<CompiledInstruction>) -> Seq<
    IxPair<'a>,
> {
    Seq::new(ixs@.len(), |k: int| resolve(keys, &ixs@[k]))
}

/// Every program index of `ixs` lies inside a key list of length `n`.
pub open spec fn indices_resolve(n: int, ixs: Seq<CompiledInstruction>) -> bool {
    forall|k: int| 0 <= k < ixs.len() ==> (#[trigger] ixs[k].program_id_index as int) < n
}

/// The inner-instruction groups of a transaction; none when it has no list.
pub open spec fn groups_of(txn: &TransactionInfo) -> Seq<InnerInstructions> {
    match txn.inner_instructions {
        Some(g) => g@,
        None => Seq::empty(),
    }
}

/// The transaction has its outer instructions and its keys, and every program
/// index in it, outer or inner, resolves against its keys.
pub open spec fn is_well_formed(txn: &TransactionInfo) -> bool {
    &&& txn.outer_instructions is Some
    &&& txn.account_keys is Some
    &&& indices_resolve(
        txn.account_keys->Some_0@.len() as int,
        txn.outer_instructions->Some_0@,
    )
    &&& forall|g: int|
        0 <= g < groups_of(txn).len() ==> indices_resolve(
            txn.account_keys->Some_0@.len() as int,
            #[trigger] groups_of(txn)[g].instructions@,
        )
}

/// The first position at or after `p` of a group that belongs to outer
/// instruction `i`.
pub open spec fn first_group_from(groups: Seq<InnerInstructions>, i: int, p: int) -> Option<int>
    decreases groups.len() - p,
{
    if p < 0 || p >= groups.len() {
        None
    } else if groups[p].index as int == i {
        Some(p)
    } else {
        first_group_from(groups, i, p + 1)
    }
}

proof fn lemma_first_group_in_range(groups: Seq<InnerInstructions>, i: int, p: int)
    ensures
        first_group_from(groups, i, p) matches Some(q) ==> p <= q < groups.len() && groups[q].index
            as int == i,
    decreases groups.len() - p,
{
    if 0 <= p < groups.len() && groups[p].index as int != i {
        lemma_first_group_in_range(groups, i, p + 1);
    }
}

/// The first group that belongs to outer instruction `i`.
pub open spec fn first_group(groups: Seq<InnerInstructions>, i: int) -> Option<int> {
    first_group_from(groups, i, 0)
}

/// The inner instructions of outer instruction `i`, resolved, if it has a
/// group.
pub open spec fn inner_list<'a>(
    keys: Seq<Pubkey>,
    groups: &'a Vec<InnerInstructions>,
    i: int,
) -> Option<Seq<IxPair<'a>>> {
    match first_group(groups@, i) {
        Some(p) => Some(resolve_all(keys, &groups@[p].instructions)),
        None => None,
    }
}

/// The inner list of outer instruction `i` in a transaction.
pub open spec fn inner_list_of<'a>(txn: &'a TransactionInfo, i: int) -> Option<Seq<IxPair<'a>>> {
    match &txn.inner_instructions {
        Some(groups) => inner_list(txn.account_keys->Some_0@, groups, i),
        None => None,
    }
}

/// The hoisted elements among the first `n` pairs of `inner`: one for each
/// pair whose program is in `programs`, each with the whole list as context.
pub open spec fn hoisted<'a>(programs: Seq<Pubkey>, inner: Seq<IxPair<'a>>, n: int) -> Seq<
    OrderedView<'a>,
>
    decreases n,
{
    if n <= 0 {
        Seq::empty()
    } else {
        let rest = hoisted(programs, inner, n - 1);
        if programs.contains(inner[n - 1].0) {
            rest.push((inner[n - 1], Some(inner)))
        } else {
            rest
        }
    }
}

/// The elements that outer instruction `i` contributes: its hoisted inner
/// instructions, then itself when its program is in `programs`.
pub open spec fn bundles_of<'a>(programs: Seq<Pubkey>, txn: &'a TransactionInfo, i: int) -> Seq<
    OrderedView<'a>,
> {
    let keys = txn.account_keys->Some_0@;
    let own = resolve(keys, &txn.outer_instructions->Some_0@[i]);
    let inner = inner_list_of(txn, i);
    let lifted = match inner {
        Some(l) => hoisted(programs, l, l.len() as int),
        None => Seq::empty(),
    };
    if programs.contains(own.0) {
        lifted.push((own, inner))
    } else {
        lifted
    }
}

/// The elements contributed by the first `n` outer instructions, in order.
pub open spec fn ordered_upto<'a>(programs: Seq<Pubkey>, txn: &'a TransactionInfo, n: int) -> Seq<
    OrderedView<'a>,
>
    decreases n,
{
    if n <= 0 {
        Seq::empty()
    } else {
        ordered_upto(programs, txn, n - 1) + bundles_of(programs, txn, n - 1)
    }
}

/// The number of outer instructions of a well-formed transaction.
pub open spec fn outer_len(txn: &TransactionInfo) -> int {
    txn.outer_instructions->Some_0@.len() as int
}

/// The ordering of a transaction: empty unless it is well formed.
pub open spec fn ordered<'a>(programs: Seq<Pubkey>, txn: &'a TransactionInfo) -> Seq<
    OrderedView<'a>,
> {
    if is_well_formed(txn) {
        ordered_upto(programs, txn, outer_len(txn))
    } else {
        Seq::empty()
    }
}

/// An optional vector seen as an optional sequence.
pub open spec fn opt_view<T>(o: Option<Vec<T>>) -> Option<Seq<T>> {
    match o {
        Some(v) => Some(v@),
        None => None,
    }
}

/// The elements of an ordering with their inner lists seen as sequences.
pub open spec fn view_all<'a>(r: Seq<OrderedInstruction<'a>>) -> Seq<OrderedView<'a>> {
    Seq::new(r.len(), |k: int| (r[k].0, opt_view(r[k].1)))
}

proof fn lemma_view_all_push<'a>(r: Seq<OrderedInstruction<'a>>, x: OrderedInstruction<'a>)
    ensures
        view_all(r.push(x)) == view_all(r).push((x.0, opt_view(x.1))),
{
    assert(view_all(r.push(x)) =~= view_all(r).push((x.0, opt_view(x.1))));
}

/// Whether every program index of `ixs` is below `n`.
fn all_indices_resolve(n: usize, ixs: &Vec<CompiledInstruction>) -> (r: bool)
    ensures
        r == indices_resolve(n as int, ixs@),
{
    let mut k: usize = 0;
    while k < ixs.len()
        invariant
            k <= ixs@.len(),
            forall|j: int| 0 <= j < k ==> (#[trigger] ixs@[j].program_id_index as int) < n,
        decreases ixs@.len() - k,
    {
        if ixs[k].program_id_index as usize >= n {
            return false;
        }
        k = k + 1;
    }
    true
}

/// Whether the transaction has what an ordering needs, with every program
/// index resolving.
pub fn well_formed(txn: &TransactionInfo) -> (r: bool)
    ensures
        r == is_well_formed(txn),
{
    let (outer, keys) = match (&txn.outer_instructions, &txn.account_keys) {
        (Some(o), Some(k)) => (o, k),
        _ => {
            return false;
        },
    };
    if !all_indices_resolve(keys.len(), outer) {
        return false;
    }
    if let Some(groups) = &txn.inner_instructions {
        let mut g: usize = 0;
        while g < groups.len()
            invariant
                g <= groups@.len(),
                groups_of(txn) == groups@,
                txn.account_keys == Some(*keys),
                forall|j: int|
                    0 <= j < g ==> indices_resolve(
                        keys@.len() as int,
                        #[trigger] groups@[j].instructions@,
                    ),
            decreases groups@.len() - g,
        {
            if !all_indices_resolve(keys.len(), &groups[g].instructions) {
                proof {
                    assert(groups_of(txn)[g as int] == groups@[g as int]);
                    assert(!indices_resolve(
                        txn.account_keys->Some_0@.len() as int,
                        groups_of(txn)[g as int].instructions@,
                    ));
                }
                return false;
            }
            g = g + 1;
        }
    }
    true
}

/// The first group of `inner_ixs` that belongs to outer instruction
/// `outer_index`.
pub fn get_inner_ixs<'a>(inner_ixs: &'a Vec<InnerInstructions>, outer_index: usize) -> (r: Option<
    &'a InnerInstructions,
>)
    ensures
        match first_group(inner_ixs@, outer_index as int) {
            Some(p) => r == Some(&inner_ixs@[p]),
            None => r is None,
        },
{
    let mut p: usize = 0;
    while p < inner_ixs.len()
        invariant
            p <= inner_ixs@.len(),
            first_group(inner_ixs@, outer_index as int) == first_group_from(
                inner_ixs@,
                outer_index as int,
                p as int,
            ),
        decreases inner_ixs@.len() - p,
    {
        if inner_ixs[p].index as usize == outer_index {
            return Some(&inner_ixs[p]);
        }
        p = p + 1;
    }
    None
}

/// The inner instructions of outer instruction `index`, each paired with its
/// program id, when a group belongs to it.
pub fn fill_inner<'a>(
    inner_ixs: &'a Vec<InnerInstructions>,
    keys: &Vec<Pubkey>,
    index: usize,
) -> (r: Option<Vec<IxPair<'a>>>)
    requires
        forall|g: int|
            0 <= g < inner_ixs@.len() ==> indices_resolve(
                keys@.len() as int,
                #[trigger] inner_ixs@[g].instructions@,
            ),
    ensures
        opt_view(r) == inner_list(keys@, inner_ixs, index as int),
{
    match get_inner_ixs(inner_ixs, index) {
        None => None,
        Some(group) => {
            let ghost p = first_group(inner_ixs@, index as int)->Some_0;
            proof {
                lemma_first_group_in_range(inner_ixs@, index as int, 0);
                assert(group == &inner_ixs@[p]);
                assert(indices_resolve(keys@.len() as int, inner_ixs@[p].instructions@));
            }
            let ixs = &group.instructions;
            let mut inner_list: Vec<IxPair<'a>> = Vec::new();
            let mut k: usize = 0;
            while k < ixs.len()
                invariant
                    k <= ixs@.len(),
                    ixs == &inner_ixs@[p].instructions,
                    indices_resolve(keys@.len() as int, ixs@),
                    inner_list@ =~= resolve_all(keys@, ixs).subrange(0, k as int),
                decreases ixs@.len() - k,
            {
                let ix: &'a CompiledInstruction = &ixs[k];
                let program_id = keys[ix.program_id_index as usize];
                inner_list.push((program_id, ix));
                k = k + 1;
            }
            assert(inner_list@ =~= resolve_all(keys@, ixs));
            Some(inner_list)
        },
    }
}

/// A copy of an inner list.
fn copy_pairs<'a>(pairs: &Vec<IxPair<'a>>) -> (r: Vec<IxPair<'a>>)
    ensures
        r@ == pairs@,
{
    let mut out: Vec<IxPair<'a>> = Vec::new();
    let mut k: usize = 0;
    while k < pairs.len()
        invariant
            k <= pairs@.len(),
            out@ =~= pairs@.subrange(0, k as int),
        decreases pairs@.len() - k,
    {
        out.push(pairs[k]);
        k = k + 1;
    }
    assert(out@ =~= pairs@);
    out
}

/// Orders the instructions of a transaction for decoding.
///
/// For each outer instruction in turn, every inner instruction of it whose
/// program is in `programs` comes first, each paired with the whole inner
/// list; then the outer instruction itself, when its program is in
/// `programs`, with the same inner list. A transaction that lacks its
/// instructions or keys, or holds a program index that does not resolve,
/// gives an empty ordering.
pub fn order_instructions<'a>(programs: &Vec<Pubkey>, transaction_info: &'a TransactionInfo) -> (r:
    Vec<OrderedInstruction<'a>>)
    ensures
        view_all(r@) == ordered(programs@, transaction_info),
{
    let mut ordered_ixs: Vec<OrderedInstruction<'a>> = Vec::new();
    if programs.len() == 0 {
        proof {
            lemma_no_programs(programs@, transaction_info);
            assert(view_all(ordered_ixs@) =~= Seq::empty());
        }
        return ordered_ixs;
    }
    if !well_formed(transaction_info) {
        proof {
            assert(view_all(ordered_ixs@) =~= Seq::empty());
        }
        return ordered_ixs;
    }
    let outer_instructions = match &transaction_info.outer_instructions {
        Some(o) => o,
        None => {
            return ordered_ixs;
        },
    };
    let keys = match &transaction_info.account_keys {
        Some(k) => k,
        None => {
            return ordered_ixs;
        },
    };
    let mut i: usize = 0;
    proof {
        assert(view_all(ordered_ixs@) =~= Seq::empty());
    }
    while i < outer_instructions.len()
        invariant
            i <= outer_instructions@.len(),
            is_well_formed(transaction_info),
            transaction_info.outer_instructions == Some(*outer_instructions),
            transaction_info.account_keys == Some(*keys),
            view_all(ordered_ixs@) == ordered_upto(programs@, transaction_info, i as int),
        decreases outer_instructions@.len() - i,
    {
        let instruction: &'a CompiledInstruction = &outer_instructions[i];
        let program_id = keys[instruction.program_id_index as usize];
        let inner: Option<Vec<IxPair<'a>>> = match &transaction_info.inner_instructions {
            Some(groups) => {
                proof {
                    assert(groups_of(transaction_info) == groups@);
                }
                fill_inner(groups, keys, i)
            },
            None => None,
        };
        let ghost before = view_all(ordered_ixs@);
        proof {
            assert(opt_view(inner) == inner_list_of(transaction_info, i as int));
        }
        if let Some(inner_ix) = &inner {
            let ghost l = inner_ix@;
            let mut k: usize = 0;
            while k < inner_ix.len()
                invariant
                    k <= inner_ix@.len(),
                    l == inner_ix@,
                    view_all(ordered_ixs@) == before + hoisted(programs@, l, k as int),
                decreases inner_ix@.len() - k,
            {
                let pair: IxPair<'a> = inner_ix[k];
                if contains_key(programs, &pair.0) {
                    let new_inner_list = copy_pairs(inner_ix);
                    proof {
                        lemma_view_all_push(ordered_ixs@, (pair, Some(new_inner_list)));
                        assert(before + hoisted(programs@, l, k + 1) =~= (before + hoisted(
                            programs@,
                            l,
                            k as int,
                        )).push((pair, Some(l))));
                    }
                    ordered_ixs.push((pair, Some(new_inner_list)));
                } else {
                    proof {
                        assert(hoisted(programs@, l, k + 1) == hoisted(programs@, l, k as int));
                    }
                }
                k = k + 1;
            }
        }
        let ghost lifted = view_all(ordered_ixs@);
        proof {
            match opt_view(inner) {
                Some(l) => {
                    assert(lifted == before + hoisted(programs@, l, l.len() as int));
                },
                None => {
                    assert(lifted =~= before + Seq::<OrderedView<'a>>::empty());
                },
            }
        }
        if contains_key(programs, &program_id) {
            proof {
                lemma_view_all_push(ordered_ixs@, ((program_id, instruction), inner));
            }
            ordered_ixs.push(((program_id, instruction), inner));
        }
        proof {
            assert(view_all(ordered_ixs@) =~= ordered_upto(programs@, transaction_info, i + 1));
        }
        i = i + 1;
    }
    ordered_ixs
}

proof fn lemma_hoisted_none<'a>(programs: Seq<Pubkey>, inner: Seq<IxPair<'a>>, n: int)
    requires
        programs.len() == 0,
    ensures
        hoisted(programs, inner, n) == Seq::<OrderedView<'a>>::empty(),
    decreases n,
{
    if n > 0 {
        lemma_hoisted_none(programs, inner, n - 1);
    }
}

proof fn lemma_upto_none<'a>(programs: Seq<Pubkey>, txn: &'a TransactionInfo, n: int)
    requires
        programs.len() == 0,
    ensures
        ordered_upto(programs, txn, n) == Seq::<OrderedView<'a>>::empty(),
    decreases n,
{
    if n > 0 {
        lemma_upto_none(programs, txn, n - 1);
        match inner_list_of(txn, n - 1) {
            Some(l) => lemma_hoisted_none(programs, l, l.len() as int),
            None => {},
        }
        assert(bundles_of(programs, txn, n - 1) =~= Seq::empty());
        assert(ordered_upto(programs, txn, n) =~= Seq::empty());
    }
}

/// With no programs of interest, every transaction orders to nothing.
pub proof fn lemma_no_programs<'a>(programs: Seq<Pubkey>, txn: &'a TransactionInfo)
    requires
        programs.len() == 0,
    ensures
        ordered(programs, txn) == Seq::<OrderedView<'a>>::empty(),
{
    if is_well_formed(txn) {
        lemma_upto_none(programs, txn, outer_len(txn));
    }
}


proof fn lemma_hoisted_programs<'a>(programs: Seq<Pubkey>, inner: Seq<IxPair<'a>>, n: int)
    ensures
        forall|k: int|
            0 <= k < hoisted(programs, inner, n).len() ==> programs.contains(
                #[trigger] hoisted(programs, inner, n)[k].0.0,
            ),
    decreases n,
{
    if n > 0 {
        lemma_hoisted_programs(programs, inner, n - 1);
        let prev = hoisted(programs, inner, n - 1);
        let h = hoisted(programs, inner, n);
        assert forall|k: int| 0 <= k < h.len() implies programs.contains(#[trigger] h[k].0.0) by {
            if k < prev.len() {
                assert(h[k] == prev[k]);
            }
        }
    }
}

proof fn lemma_upto_programs<'a>(programs: Seq<Pubkey>, txn: &'a TransactionInfo, n: int)
    ensures
        forall|k: int|
            0 <= k < ordered_upto(programs, txn, n).len() ==> programs.contains(
                #[trigger] ordered_upto(programs, txn, n)[k].0.0,
            ),
    decreases n,
{
    if n > 0 {
        lemma_upto_programs(programs, txn, n - 1);
        let b = bundles_of(programs, txn, n - 1);
        match inner_list_of(txn, n - 1) {
            Some(l) => lemma_hoisted_programs(programs, l, l.len() as int),
            None => {},
        }
        assert forall|k: int| 0 <= k < b.len() implies programs.contains(#[trigger] b[k].0.0) by {}
        let prev = ordered_upto(programs, txn, n - 1);
        assert forall|k: int|
            0 <= k < ordered_upto(programs, txn, n).len() implies programs.contains(
                #[trigger] ordered_upto(programs, txn, n)[k].0.0,
            ) by {
            if k >= prev.len() {
                assert(ordered_upto(programs, txn, n)[k] == b[k - prev.len()]);
            } else {
                assert(ordered_upto(programs, txn, n)[k] == prev[k]);
            }
        }
    }
}

/// Every element of an ordering belongs to one of the programs asked for.
pub proof fn lemma_only_programs<'a>(programs: Seq<Pubkey>, txn: &'a TransactionInfo)
    ensures
        forall|k: int|
            0 <= k < ordered(programs, txn).len() ==> programs.contains(
                #[trigger] ordered(programs, txn)[k].0.0,
            ),
{
    if is_well_formed(txn) {
        lemma_upto_programs(programs, txn, outer_len(txn));
    }
}

/// Where the elements of outer instruction `i` begin in an ordering.
pub open spec fn offset_of<'a>(programs: Seq<Pubkey>, txn: &'a TransactionInfo, i: int) -> int {
    ordered_upto(programs, txn, i).len() as int
}

proof fn lemma_upto_grows<'a>(programs: Seq<Pubkey>, txn: &'a TransactionInfo, i: int, n: int)
    requires
        0 <= i < n,
    ensures
        offset_of(programs, txn, i) + bundles_of(programs, txn, i).len() <= offset_of(
            programs,
            txn,
            n,
        ),
        forall|a: int|
            0 <= a < bundles_of(programs, txn, i).len() ==> #[trigger] ordered_upto(
                programs,
                txn,
                n,
            )[offset_of(programs, txn, i) + a] == bundles_of(programs, txn, i)[a],
    decreases n,
{
    if i < n - 1 {
        lemma_upto_grows(programs, txn, i, n - 1);
        let prev = ordered_upto(programs, txn, n - 1);
        assert forall|a: int| 0 <= a < bundles_of(programs, txn, i).len() implies #[trigger] ordered_upto(
            programs,
            txn,
            n,
        )[offset_of(programs, txn, i) + a] == bundles_of(programs, txn, i)[a] by {
            assert(ordered_upto(programs, txn, n)[offset_of(programs, txn, i) + a] == prev[offset_of(
                programs,
                txn,
                i,
            ) + a]);
        }
    }
}

/// Outer order is kept: for outer instructions `i < j`, each element that `i`
/// contributes stands, at its place in the ordering, before each element that
/// `j` contributes.
pub proof fn lemma_outer_order<'a>(
    programs: Seq<Pubkey>,
    txn: &'a TransactionInfo,
    i: int,
    j: int,
    a: int,
    b: int,
)
    requires
        is_well_formed(txn),
        0 <= i < j < outer_len(txn),
        0 <= a < bundles_of(programs, txn, i).len(),
        0 <= b < bundles_of(programs, txn, j).len(),
    ensures
        ordered(programs, txn)[offset_of(programs, txn, i) + a] == bundles_of(programs, txn, i)[a],
        ordered(programs, txn)[offset_of(programs, txn, j) + b] == bundles_of(programs, txn, j)[b],
        offset_of(programs, txn, i) + a < offset_of(programs, txn, j) + b,
        offset_of(programs, txn, j) + b < ordered(programs, txn).len(),
{
    lemma_upto_grows(programs, txn, i, outer_len(txn));
    lemma_upto_grows(programs, txn, j, outer_len(txn));
    lemma_upto_grows(programs, txn, i, j);
}

proof fn lemma_hoisted_has<'a>(programs: Seq<Pubkey>, inner: Seq<IxPair<'a>>, n: int, k: int)
    requires
        0 <= k < n,
        programs.contains(inner[k].0),
    ensures
        hoisted(programs, inner, n).contains((inner[k], Some(inner))),
    decreases n,
{
    if k < n - 1 {
        lemma_hoisted_has(programs, inner, n - 1, k);
        let prev = hoisted(programs, inner, n - 1);
        let w = choose|w: int| 0 <= w < prev.len() && prev[w] == (inner[k], Some(inner));
        assert(hoisted(programs, inner, n)[w] == prev[w]);
    } else {
        let h = hoisted(programs, inner, n);
        assert(h[h.len() - 1] == (inner[k], Some(inner)));
    }
}

/// Hoisting is complete: each inner instruction whose program is asked for
/// appears in the ordering, with the inner list of its outer instruction as
/// context, whether or not that outer instruction's program is asked for.
pub proof fn lemma_hoisting_complete<'a>(
    programs: Seq<Pubkey>,
    txn: &'a TransactionInfo,
    i: int,
    k: int,
)
    requires
        is_well_formed(txn),
        0 <= i < outer_len(txn),
        inner_list_of(txn, i) is Some,
        0 <= k < inner_list_of(txn, i)->Some_0.len(),
        programs.contains(inner_list_of(txn, i)->Some_0[k].0),
    ensures
        ordered(programs, txn).contains(
            (inner_list_of(txn, i)->Some_0[k], Some(inner_list_of(txn, i)->Some_0)),
        ),
{
    let l = inner_list_of(txn, i)->Some_0;
    lemma_hoisted_has(programs, l, l.len() as int, k);
    let h = hoisted(programs, l, l.len() as int);
    let w = choose|w: int| 0 <= w < h.len() && h[w] == (l[k], Some(l));
    let b = bundles_of(programs, txn, i);
    assert(b[w] == h[w]);
    lemma_upto_grows(programs, txn, i, outer_len(txn));
    assert(ordered(programs, txn)[offset_of(programs, txn, i) + w] == b[w]);
}

} // verus!
