//! The merge clause compiler.
//!
//! A merge request carries ordered lists of loosely-typed clauses — an
//! optional predicate, column-to-expression assignments, and the
//! "update-all"/"insert-all" flags — for each of the five clause categories.
//! [`compile_merge`] folds them into a single upsert plan: it validates every
//! clause, deduplicates each clause's assignments (a later entry for the same
//! column wins), preserves clause order within each category, and fails fast
//! on the first clause that asks for the unsupported "-all" forms, before
//! anything is handed to the table engine.

use vstd::prelude::*;

verus! {

broadcast use vstd::std_specs::vec::group_vec_axioms, vstd::seq::group_seq_axioms;

/// One condition/action description as the caller hands it in.
#[derive(Debug)]
pub struct MergeClause {
    /// Optional predicate over aliased source/target columns.
    pub predicate: Option<String>,
    /// Column-to-expression assignments, in the order given.
    pub assignments: Vec<(String, String)>,
    /// Ask to update every target column; recognized but unsupported.
    pub update_all: bool,
    /// Ask to insert every source column; recognized but unsupported.
    pub insert_all: bool,
}

/// The five clause categories of a conditional upsert, in their fixed
/// evaluation order.
#[derive(Clone, Copy, Debug, PartialEq, Eq, Structural)]
pub enum ClauseCategory {
    MatchedUpdate,
    MatchedDelete,
    NotMatchedInsert,
    NotMatchedBySourceUpdate,
    NotMatchedBySourceDelete,
}

/// Which unsupported flag a rejected clause carried.
#[derive(Clone, Copy, Debug, PartialEq, Eq, Structural)]
pub enum UnsupportedClauseFlag {
    UpdateAll,
    InsertAll,
}

/// A clause asked for an unsupported "-all" form; the category and position
/// of the offending clause identify it to the caller.
#[derive(Clone, Copy, Debug, PartialEq, Eq, Structural)]
pub struct ClauseError {
    pub category: ClauseCategory,
    pub index: usize,
    pub flag: UnsupportedClauseFlag,
}

/// Statement of the rejection, one sentence per flag.
pub open spec fn clause_error_text_spec(flag: UnsupportedClauseFlag) -> Seq<char> {
    match flag {
        UnsupportedClauseFlag::UpdateAll => "update-all clauses are not supported yet; use explicit column mappings"@,
        UnsupportedClauseFlag::InsertAll => "insert-all clauses are not supported yet; use explicit column mappings"@,
    }
}

impl ClauseError {
    /// Why the clause was rejected, in words.
    pub fn message(&self) -> (r: &'static str)
        ensures
            r@ == clause_error_text_spec(self.flag),
    {
        match self.flag {
            UnsupportedClauseFlag::UpdateAll => "update-all clauses are not supported yet; use explicit column mappings",
            UnsupportedClauseFlag::InsertAll => "insert-all clauses are not supported yet; use explicit column mappings",
        }
    }
}

/// The action of a validated clause, one variant per category kind.
#[derive(Debug)]
pub enum CompiledAction {
    /// Apply column assignments to the target row.
    Update(Vec<(String, String)>),
    /// Delete the target row.
    Delete,
    /// Insert a source row with column assignments.
    Insert(Vec<(String, String)>),
}

/// One validated clause of the upsert plan: assignments are deduplicated,
/// with unique column names.
#[derive(Debug)]
pub struct CompiledClause {
    pub predicate: Option<String>,
    pub action: CompiledAction,
}

/// Mathematical model of an optional predicate string.
pub open spec fn predicate_view(p: Option<String>) -> Option<Seq<char>> {
    match p {
        Some(s) => Some(s@),
        None => None,
    }
}

/// Mathematical model of an assignment list, element by element.
pub open spec fn pairs_view(pairs: Seq<(String, String)>) -> Seq<(Seq<char>, Seq<char>)>
    decreases pairs,
{
    if pairs.len() == 0 {
        Seq::empty()
    } else {
        seq![(pairs[0].0@, pairs[0].1@)] + pairs_view(pairs.drop_first())
    }
}

/// The element-wise model of an assignment list has the same length and
/// indexes back to each pair's views.
pub broadcast proof fn lemma_pairs_view(pairs: Seq<(String, String)>)
    ensures
        (#[trigger] pairs_view(pairs)).len() == pairs.len(),
        forall|k: int|
            0 <= k < pairs.len() ==> #[trigger] pairs_view(pairs)[k] == (pairs[k].0@, pairs[k].1@),
    decreases pairs,
{
    if pairs.len() > 0 {
        lemma_pairs_view(pairs.drop_first());
        assert(pairs_view(pairs) == seq![(pairs[0].0@, pairs[0].1@)] + pairs_view(
            pairs.drop_first(),
        ));
        assert forall|k: int| 0 <= k < pairs.len() implies #[trigger] pairs_view(pairs)[k] == (
        pairs[k].0@,
        pairs[k].1@,
        ) by {
            if k > 0 {
                assert(pairs_view(pairs)[k] == pairs_view(pairs.drop_first())[k - 1]);
                assert(pairs.drop_first()[k - 1] == pairs[k]);
            }
        }
    } else {
        assert(pairs_view(pairs) == Seq::<(Seq<char>, Seq<char>)>::empty());
    }
}

/// The column-to-expression mapping that an assignment list denotes: entries
/// are read in order and a later entry for the same column wins.
pub open spec fn assignments_map(pairs: Seq<(Seq<char>, Seq<char>)>) -> Map<Seq<char>, Seq<char>>
    decreases pairs,
{
    if pairs.len() == 0 {
        Map::empty()
    } else {
        assignments_map(pairs.drop_last()).insert(pairs.last().0, pairs.last().1)
    }
}

/// No two entries of the list name the same column.
pub open spec fn unique_keys(pairs: Seq<(Seq<char>, Seq<char>)>) -> bool {
    forall|i: int, j: int| 0 <= i < j < pairs.len() ==> pairs[i].0 != pairs[j].0
}

/// Reading one more entry of an assignment list inserts that entry's pair
/// into the mapping denoted so far.
pub proof fn lemma_assignments_map_take_step(pairs: Seq<(Seq<char>, Seq<char>)>, k: int)
    requires
        0 <= k < pairs.len(),
    ensures
        assignments_map(pairs.take(k + 1)) == assignments_map(pairs.take(k)).insert(
            pairs[k].0,
            pairs[k].1,
        ),
{
    assert(pairs.take(k + 1).drop_last() =~= pairs.take(k));
    assert(pairs.take(k + 1).last() == pairs[k]);
    assert(assignments_map(pairs.take(k + 1)) == assignments_map(pairs.take(k + 1).drop_last())
        .insert(pairs.take(k + 1).last().0, pairs.take(k + 1).last().1));
}

/// Appending an entry inserts its pair into the denoted mapping.
pub proof fn lemma_assignments_map_push(
    pairs: Seq<(Seq<char>, Seq<char>)>,
    key: Seq<char>,
    value: Seq<char>,
)
    ensures
        assignments_map(pairs.push((key, value))) == assignments_map(pairs).insert(key, value),
{
    assert(pairs.push((key, value)).drop_last() =~= pairs);
    assert(pairs.push((key, value)).last() == (key, value));
    assert(assignments_map(pairs.push((key, value))) == assignments_map(
        pairs.push((key, value)).drop_last(),
    ).insert(key, value));
}

/// Overwriting the value of an existing column (in a list with unique
/// column names) inserts the new pair into the denoted mapping.
pub proof fn lemma_assignments_map_update(
    pairs: Seq<(Seq<char>, Seq<char>)>,
    idx: int,
    value: Seq<char>,
)
    requires
        unique_keys(pairs),
        0 <= idx < pairs.len(),
    ensures
        assignments_map(pairs.update(idx, (pairs[idx].0, value))) == assignments_map(pairs).insert(
            pairs[idx].0,
            value,
        ),
    decreases pairs,
{
    let updated = pairs.update(idx, (pairs[idx].0, value));
    let key = pairs[idx].0;
    if idx == pairs.len() - 1 {
        assert(updated.drop_last() =~= pairs.drop_last());
        assert(updated.last() == (key, value));
        assert(assignments_map(updated) == assignments_map(pairs.drop_last()).insert(key, value));
        assert(assignments_map(pairs) == assignments_map(pairs.drop_last()).insert(
            key,
            pairs[idx].1,
        ));
        assert(assignments_map(pairs.drop_last()).insert(key, pairs[idx].1).insert(key, value)
            =~= assignments_map(pairs.drop_last()).insert(key, value));
    } else {
        let shorter = pairs.drop_last();
        assert(updated.drop_last() =~= shorter.update(idx, (shorter[idx].0, value)));
        assert(updated.last() == pairs.last());
        assert(unique_keys(shorter));
        lemma_assignments_map_update(shorter, idx, value);
        assert(assignments_map(updated) == assignments_map(shorter).insert(key, value).insert(
            pairs.last().0,
            pairs.last().1,
        ));
        assert(assignments_map(pairs) == assignments_map(shorter).insert(
            pairs.last().0,
            pairs.last().1,
        ));
        // The overwritten column differs from the last entry's column, so the
        // two insertions commute.
        assert(pairs[idx].0 != pairs.last().0);
        assert(assignments_map(shorter).insert(key, value).insert(pairs.last().0, pairs.last().1)
            =~= assignments_map(shorter).insert(pairs.last().0, pairs.last().1).insert(
            key,
            value,
        ));
    }
}

/// Finds the position of a column name among the assignments gathered so
/// far, exactly: the position holds that name, or no position does.
fn find_key(out: &Vec<(String, String)>, key: &String) -> (r: Option<usize>)
    ensures
        r matches Some(i) ==> i < out@.len() && pairs_view(out@)[i as int].0 == key@,
        r is None ==> forall|i: int| 0 <= i < out@.len() ==> pairs_view(out@)[i].0 != key@,
{
    proof {
        lemma_pairs_view(out@);
    }
    let mut i: usize = 0;
    while i < out.len()
        invariant
            i <= out@.len(),
            forall|j: int| 0 <= j < i ==> pairs_view(out@)[j].0 != key@,
        decreases out@.len() - i,
    {
        proof {
            lemma_pairs_view(out@);
        }
        if out[i].0 == *key {
            return Some(i);
        }
        i = i + 1;
    }
    None
}

/// Deduplicates an assignment list: the result denotes the same
/// column-to-expression mapping (a later entry for the same column wins)
/// and names every column exactly once.
pub fn dedup_assignments(input: &Vec<(String, String)>) -> (r: Vec<(String, String)>)
    ensures
        unique_keys(pairs_view(r@)),
        assignments_map(pairs_view(r@)) == assignments_map(pairs_view(input@)),
{
    proof {
        lemma_pairs_view(input@);
    }
    let ghost pv = pairs_view(input@);
    let mut out: Vec<(String, String)> = Vec::new();
    let mut k: usize = 0;
    proof {
        lemma_pairs_view(out@);
        assert(pairs_view(out@) =~= Seq::<(Seq<char>, Seq<char>)>::empty());
        assert(pv.take(0) =~= Seq::<(Seq<char>, Seq<char>)>::empty());
        assert(assignments_map(pv.take(0)) == Map::<Seq<char>, Seq<char>>::empty());
        assert(assignments_map(pairs_view(out@)) == Map::<Seq<char>, Seq<char>>::empty());
    }
    while k < input.len()
        invariant
            k <= input@.len(),
            pv == pairs_view(input@),
            unique_keys(pairs_view(out@)),
            assignments_map(pairs_view(out@)) == assignments_map(pv.take(k as int)),
        decreases input@.len() - k,
    {
        proof {
            lemma_pairs_view(input@);
            lemma_pairs_view(out@);
            lemma_assignments_map_take_step(pv, k as int);
        }
        let key = input[k].0.clone();
        let value = input[k].1.clone();
        let ghost out_prev = out@;
        match find_key(&out, &key) {
            Some(i) => {
                out[i].1 = value;
                proof {
                    lemma_pairs_view(out@);
                    assert(pairs_view(out@) =~= pairs_view(out_prev).update(
                        i as int,
                        (pairs_view(out_prev)[i as int].0, pv[k as int].1),
                    ));
                    lemma_assignments_map_update(
                        pairs_view(out_prev),
                        i as int,
                        pv[k as int].1,
                    );
                }
            },
            None => {
                out.push((key, value));
                proof {
                    lemma_pairs_view(out@);
                    assert(pairs_view(out@) =~= pairs_view(out_prev).push(
                        (pv[k as int].0, pv[k as int].1),
                    ));
                    lemma_assignments_map_push(
                        pairs_view(out_prev),
                        pv[k as int].0,
                        pv[k as int].1,
                    );
                }
            },
        }
        k = k + 1;
    }
    proof {
        assert(pv.take(input@.len() as int) =~= pv);
    }
    out
}

/// A clause that asks for no unsupported form.
pub open spec fn clause_clean(c: MergeClause) -> bool {
    !c.update_all && !c.insert_all
}

/// The flag an offending clause is rejected for; update-all is reported
/// first when both are set.
pub open spec fn offending_flag(c: MergeClause) -> UnsupportedClauseFlag {
    if c.update_all {
        UnsupportedClauseFlag::UpdateAll
    } else {
        UnsupportedClauseFlag::InsertAll
    }
}

/// What a validated clause holds, given its category: the same predicate,
/// the action kind of the category, and for update and insert actions the
/// same column-to-expression mapping with unique column names.
pub open spec fn compiled_matches(
    category: ClauseCategory,
    c: MergeClause,
    out: CompiledClause,
) -> bool {
    &&& predicate_view(out.predicate) == predicate_view(c.predicate)
    &&& match category {
        ClauseCategory::MatchedUpdate | ClauseCategory::NotMatchedBySourceUpdate => {
            &&& out.action matches CompiledAction::Update(asg)
            &&& unique_keys(pairs_view(asg@))
            &&& assignments_map(pairs_view(asg@)) == assignments_map(pairs_view(c.assignments@))
        },
        ClauseCategory::MatchedDelete | ClauseCategory::NotMatchedBySourceDelete => out.action
            is Delete,
        ClauseCategory::NotMatchedInsert => {
            &&& out.action matches CompiledAction::Insert(asg)
            &&& unique_keys(pairs_view(asg@))
            &&& assignments_map(pairs_view(asg@)) == assignments_map(pairs_view(c.assignments@))
        },
    }
}

/// Validates one clause of a category: a clause carrying either "-all" flag
/// is rejected — always, before any table work — and any other clause
/// compiles to its category's action with deduplicated assignments.
pub fn compile_clause(category: ClauseCategory, index: usize, clause: &MergeClause) -> (r: Result<
    CompiledClause,
    ClauseError,
>)
    ensures
        r is Ok <==> clause_clean(*clause),
        r matches Ok(cc) ==> compiled_matches(category, *clause, cc),
        r matches Err(e) ==> e == (ClauseError { category, index, flag: offending_flag(*clause) }),
{
    if clause.update_all {
        Err(ClauseError { category, index, flag: UnsupportedClauseFlag::UpdateAll })
    } else if clause.insert_all {
        Err(ClauseError { category, index, flag: UnsupportedClauseFlag::InsertAll })
    } else {
        let predicate = match &clause.predicate {
            Some(p) => Some(p.clone()),
            None => None,
        };
        let action = match category {
            ClauseCategory::MatchedUpdate => CompiledAction::Update(
                dedup_assignments(&clause.assignments),
            ),
            ClauseCategory::NotMatchedBySourceUpdate => CompiledAction::Update(
                dedup_assignments(&clause.assignments),
            ),
            ClauseCategory::MatchedDelete => CompiledAction::Delete,
            ClauseCategory::NotMatchedBySourceDelete => CompiledAction::Delete,
            ClauseCategory::NotMatchedInsert => CompiledAction::Insert(
                dedup_assignments(&clause.assignments),
            ),
        };
        Ok(CompiledClause { predicate, action })
    }
}

/// Every clause of the list is free of unsupported flags.
pub open spec fn list_clean(clauses: Seq<MergeClause>) -> bool {
    forall|i: int| 0 <= i < clauses.len() ==> clause_clean(#[trigger] clauses[i])
}

/// The compiled list corresponds to the given list clause by clause, in
/// order.
pub open spec fn compiled_list(
    category: ClauseCategory,
    clauses: Seq<MergeClause>,
    outs: Seq<CompiledClause>,
) -> bool {
    &&& outs.len() == clauses.len()
    &&& forall|i: int|
        0 <= i < clauses.len() ==> compiled_matches(category, clauses[i], #[trigger] outs[i])
}

/// The error names the first offending clause of the list.
pub open spec fn first_offender(
    category: ClauseCategory,
    clauses: Seq<MergeClause>,
    e: ClauseError,
) -> bool {
    &&& e.category == category
    &&& 0 <= e.index < clauses.len()
    &&& !clause_clean(clauses[e.index as int])
    &&& e.flag == offending_flag(clauses[e.index as int])
    &&& forall|j: int| 0 <= j < e.index ==> clause_clean(#[trigger] clauses[j])
}

/// Folds the ordered clause list of one category into the plan, preserving
/// order, or rejects the first clause that asks for an unsupported form.
pub fn compile_category(category: ClauseCategory, clauses: &Vec<MergeClause>) -> (r: Result<
    Vec<CompiledClause>,
    ClauseError,
>)
    ensures
        r is Ok <==> list_clean(clauses@),
        r matches Ok(outs) ==> compiled_list(category, clauses@, outs@),
        r matches Err(e) ==> first_offender(category, clauses@, e),
{
    let mut outs: Vec<CompiledClause> = Vec::new();
    let mut i: usize = 0;
    while i < clauses.len()
        invariant
            i <= clauses@.len(),
            outs@.len() == i,
            forall|j: int| 0 <= j < i ==> clause_clean(#[trigger] clauses@[j]),
            forall|j: int|
                0 <= j < i ==> compiled_matches(category, clauses@[j], #[trigger] outs@[j]),
        decreases clauses@.len() - i,
    {
        match compile_clause(category, i, &clauses[i]) {
            Ok(cc) => {
                outs.push(cc);
            },
            Err(e) => {
                return Err(e);
            },
        }
        i = i + 1;
    }
    Ok(outs)
}

/// A full merge request: the join predicate, the aliases under which source
/// and target columns appear in expressions, and the ordered clause lists of
/// the five categories.
#[derive(Debug)]
pub struct MergeRequest {
    pub predicate: String,
    pub source_alias: String,
    pub target_alias: String,
    pub matched_update: Vec<MergeClause>,
    pub matched_delete: Vec<MergeClause>,
    pub not_matched_insert: Vec<MergeClause>,
    pub not_matched_by_source_update: Vec<MergeClause>,
    pub not_matched_by_source_delete: Vec<MergeClause>,
}

/// The fully validated upsert plan that is handed to the table engine as one
/// atomic operation.
#[derive(Debug)]
pub struct MergePlan {
    pub predicate: String,
    pub source_alias: String,
    pub target_alias: String,
    pub matched_update: Vec<CompiledClause>,
    pub matched_delete: Vec<CompiledClause>,
    pub not_matched_insert: Vec<CompiledClause>,
    pub not_matched_by_source_update: Vec<CompiledClause>,
    pub not_matched_by_source_delete: Vec<CompiledClause>,
}

/// Compiles a whole merge request into an upsert plan, category by category
/// in the fixed order matched-update, matched-delete, not-matched-insert,
/// not-matched-by-source-update, not-matched-by-source-delete.  The first
/// offending clause of the first offending category aborts the whole
/// compilation: either every clause compiles, or nothing is handed on.
/// Every clause list of the request is free of unsupported flags: exactly
/// the requests whose compilation succeeds.
pub open spec fn request_clean(req: MergeRequest) -> bool {
    &&& list_clean(req.matched_update@)
    &&& list_clean(req.matched_delete@)
    &&& list_clean(req.not_matched_insert@)
    &&& list_clean(req.not_matched_by_source_update@)
    &&& list_clean(req.not_matched_by_source_delete@)
}

/// The plan is the request compiled whole: the same join predicate and
/// aliases, and each category's clause list compiled in order.
pub open spec fn plan_matches(req: MergeRequest, plan: MergePlan) -> bool {
    &&& plan.predicate@ == req.predicate@
    &&& plan.source_alias@ == req.source_alias@
    &&& plan.target_alias@ == req.target_alias@
    &&& compiled_list(ClauseCategory::MatchedUpdate, req.matched_update@, plan.matched_update@)
    &&& compiled_list(ClauseCategory::MatchedDelete, req.matched_delete@, plan.matched_delete@)
    &&& compiled_list(
        ClauseCategory::NotMatchedInsert,
        req.not_matched_insert@,
        plan.not_matched_insert@,
    )
    &&& compiled_list(
        ClauseCategory::NotMatchedBySourceUpdate,
        req.not_matched_by_source_update@,
        plan.not_matched_by_source_update@,
    )
    &&& compiled_list(
        ClauseCategory::NotMatchedBySourceDelete,
        req.not_matched_by_source_delete@,
        plan.not_matched_by_source_delete@,
    )
}

/// The error names the first offending clause of the first offending
/// category, in the fixed category order; every earlier category is clean.
pub open spec fn merge_error_matches(req: MergeRequest, e: ClauseError) -> bool {
    match e.category {
        ClauseCategory::MatchedUpdate => first_offender(
            ClauseCategory::MatchedUpdate,
            req.matched_update@,
            e,
        ),
        ClauseCategory::MatchedDelete => list_clean(req.matched_update@) && first_offender(
            ClauseCategory::MatchedDelete,
            req.matched_delete@,
            e,
        ),
        ClauseCategory::NotMatchedInsert => list_clean(req.matched_update@) && list_clean(
            req.matched_delete@,
        ) && first_offender(ClauseCategory::NotMatchedInsert, req.not_matched_insert@, e),
        ClauseCategory::NotMatchedBySourceUpdate => list_clean(req.matched_update@) && list_clean(
            req.matched_delete@,
        ) && list_clean(req.not_matched_insert@) && first_offender(
            ClauseCategory::NotMatchedBySourceUpdate,
            req.not_matched_by_source_update@,
            e,
        ),
        ClauseCategory::NotMatchedBySourceDelete => list_clean(req.matched_update@) && list_clean(
            req.matched_delete@,
        ) && list_clean(req.not_matched_insert@) && list_clean(
            req.not_matched_by_source_update@,
        ) && first_offender(
            ClauseCategory::NotMatchedBySourceDelete,
            req.not_matched_by_source_delete@,
            e,
        ),
    }
}

pub fn compile_merge(req: &MergeRequest) -> (r: Result<MergePlan, ClauseError>)
    ensures
        r is Ok <==> request_clean(*req),
        r matches Ok(plan) ==> plan_matches(*req, plan),
        r matches Err(e) ==> merge_error_matches(*req, e),
{
    let matched_update = match compile_category(
        ClauseCategory::MatchedUpdate,
        &req.matched_update,
    ) {
        Ok(cs) => cs,
        Err(e) => {
            return Err(e);
        },
    };
    let matched_delete = match compile_category(
        ClauseCategory::MatchedDelete,
        &req.matched_delete,
    ) {
        Ok(cs) => cs,
        Err(e) => {
            return Err(e);
        },
    };
    let not_matched_insert = match compile_category(
        ClauseCategory::NotMatchedInsert,
        &req.not_matched_insert,
    ) {
        Ok(cs) => cs,
        Err(e) => {
            return Err(e);
        },
    };
    let not_matched_by_source_update = match compile_category(
        ClauseCategory::NotMatchedBySourceUpdate,
        &req.not_matched_by_source_update,
    ) {
        Ok(cs) => cs,
        Err(e) => {
            return Err(e);
        },
    };
    let not_matched_by_source_delete = match compile_category(
        ClauseCategory::NotMatchedBySourceDelete,
        &req.not_matched_by_source_delete,
    ) {
        Ok(cs) => cs,
        Err(e) => {
            return Err(e);
        },
    };
    Ok(
        MergePlan {
            predicate: req.predicate.clone(),
            source_alias: req.source_alias.clone(),
            target_alias: req.target_alias.clone(),
            matched_update,
            matched_delete,
            not_matched_insert,
            not_matched_by_source_update,
            not_matched_by_source_delete,
        },
    )
}

/// A clause applies to a row when its predicate holds of that row; a clause
/// with no predicate always applies.
pub open spec fn clause_applies(c: CompiledClause, holds: bool) -> bool {
    c.predicate is None || holds
}

/// The clause selected among positions `k` and later: the first one that
/// applies, given each clause's predicate outcome on the row.
pub open spec fn selected_from(
    clauses: Seq<CompiledClause>,
    outcomes: Seq<bool>,
    k: int,
) -> Option<int>
    decreases clauses.len() - k,
{
    if k < 0 || k >= clauses.len() {
        None
    } else if clause_applies(clauses[k], outcomes[k]) {
        Some(k)
    } else {
        selected_from(clauses, outcomes, k + 1)
    }
}

/// The clause of a category that applies to a row: clauses are tried in
/// list order and the first that applies wins.
pub open spec fn selected_clause(clauses: Seq<CompiledClause>, outcomes: Seq<bool>) -> Option<int> {
    selected_from(clauses, outcomes, 0)
}

/// Selection is unchanged by skipping a prefix of clauses that do not apply.
proof fn lemma_selected_from_skip(clauses: Seq<CompiledClause>, outcomes: Seq<bool>, k: int)
    requires
        0 <= k <= clauses.len(),
        forall|j: int| 0 <= j < k ==> !clause_applies(#[trigger] clauses[j], outcomes[j]),
    ensures
        selected_from(clauses, outcomes, 0) == selected_from(clauses, outcomes, k),
    decreases k,
{
    if k > 0 {
        lemma_selected_from_skip(clauses, outcomes, k - 1);
        assert(selected_from(clauses, outcomes, k - 1) == selected_from(clauses, outcomes, k));
    }
}

/// Picks the clause that applies to a row, exactly as [`selected_clause`]
/// states: `outcomes` gives each clause's predicate outcome on the row, and
/// the first clause whose predicate holds — or which has no predicate —
/// wins.
pub fn first_applicable(clauses: &Vec<CompiledClause>, outcomes: &Vec<bool>) -> (r: Option<usize>)
    requires
        outcomes@.len() == clauses@.len(),
    ensures
        r matches Some(i) ==> selected_clause(clauses@, outcomes@) == Some(i as int),
        r is None ==> selected_clause(clauses@, outcomes@) is None,
{
    let mut i: usize = 0;
    while i < clauses.len()
        invariant
            i <= clauses@.len(),
            outcomes@.len() == clauses@.len(),
            forall|j: int| 0 <= j < i ==> !clause_applies(#[trigger] clauses@[j], outcomes@[j]),
        decreases clauses@.len() - i,
    {
        if clauses[i].predicate.is_none() || outcomes[i] {
            proof {
                lemma_selected_from_skip(clauses@, outcomes@, i as int);
                assert(selected_from(clauses@, outcomes@, i as int) == Some(i as int));
            }
            return Some(i);
        }
        i = i + 1;
    }
    proof {
        lemma_selected_from_skip(clauses@, outcomes@, clauses@.len() as int);
        assert(selected_from(clauses@, outcomes@, clauses@.len() as int) is None);
    }
    None
}

/// Within one category, a clause placed after an unconditional clause never
/// applies: the unconditional clause (or an earlier one) always wins, so
/// later clauses are unreachable whatever the row.
pub proof fn lemma_unconditional_clause_is_final(
    clauses: Seq<CompiledClause>,
    outcomes: Seq<bool>,
    i: int,
    j: int,
)
    requires
        0 <= i < j < clauses.len(),
        outcomes.len() == clauses.len(),
        clauses[i].predicate is None,
    ensures
        selected_clause(clauses, outcomes) != Some(j),
        selected_clause(clauses, outcomes) matches Some(m) && m <= i,
{
    lemma_selected_bounded(clauses, outcomes, 0, i);
}

/// From any start at or before an always-applicable clause, selection picks
/// that clause or an earlier one.
proof fn lemma_selected_bounded(
    clauses: Seq<CompiledClause>,
    outcomes: Seq<bool>,
    k: int,
    i: int,
)
    requires
        0 <= k <= i < clauses.len(),
        outcomes.len() == clauses.len(),
        clauses[i].predicate is None,
    ensures
        selected_from(clauses, outcomes, k) matches Some(m) && k <= m <= i,
    decreases i - k,
{
    if clause_applies(clauses[k], outcomes[k]) {
        assert(selected_from(clauses, outcomes, k) == Some(k));
    } else {
        assert(k < i);
        lemma_selected_bounded(clauses, outcomes, k + 1, i);
        assert(selected_from(clauses, outcomes, k) == selected_from(clauses, outcomes, k + 1));
    }
}

} // verus!
