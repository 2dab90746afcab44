//! What holds of every classification: each maximal run of changed lines is
//! one range.

use vstd::prelude::*;
use crate::classify::{
    extended_by_addition, extended_by_deletion, line_changes, opened_by_addition,
    opened_by_deletion, ChangeType, LineChange,
};
use crate::diff::DiffLineView;

verus! {

/// Every line of `run` is an addition.
pub open spec fn all_additions(run: Seq<DiffLineView>) -> bool {
    forall|i: int| 0 <= i < run.len() ==> (#[trigger] run[i]).origin is Addition
}

/// Every line of `run` is a deletion.
pub open spec fn all_deletions(run: Seq<DiffLineView>) -> bool {
    forall|i: int| 0 <= i < run.len() ==> (#[trigger] run[i]).origin is Deletion
}

/// No run of deletions is under way at the end of `lines`.
pub open spec fn ends_without_deletion(lines: Seq<DiffLineView>) -> bool {
    lines.len() == 0 || !(lines.last().origin is Deletion)
}

/// No run of changed lines is under way at the end of `lines`.
pub open spec fn ends_without_change(lines: Seq<DiffLineView>) -> bool {
    lines.len() == 0 || !(lines.last().origin is Deletion || lines.last().origin is Addition)
}

/// A context line or a header line adds no range.
pub proof fn unchanged_line_adds_no_range(before: Seq<DiffLineView>, line: DiffLineView)
    requires
        line.origin is Context || line.origin is Header,
    ensures
        line_changes(before.push(line)) == line_changes(before),
{
    assert(before.push(line).drop_last() =~= before);
}

/// Additions that follow an open range leave its start alone, keep it from
/// being a deleted range, and end it at the line number of the last
/// addition that has one.
proof fn lemma_additions_extend(before: Seq<DiffLineView>, run: Seq<DiffLineView>)
    requires
        all_additions(run),
        before.len() > 0,
        before.last().origin is Addition || before.last().origin is Deletion,
        line_changes(before).len() > 0,
    ensures
        line_changes(before + run).len() == line_changes(before).len(),
        line_changes(before + run).drop_last() == line_changes(before).drop_last(),
        line_changes(before + run).last().start_line == line_changes(before).last().start_line,
        run.len() > 0 ==> !(line_changes(before + run).last().change_type is Deleted),
        run.len() > 0 && line_changes(before).last().change_type is Deleted ==> line_changes(
            before + run,
        ).last().change_type is Modified,
        !(line_changes(before).last().change_type is Deleted) ==> line_changes(
            before + run,
        ).last().change_type == line_changes(before).last().change_type,
        run.len() > 0 && run.last().new_lineno is Some ==> line_changes(
            before + run,
        ).last().end_line == run.last().new_lineno->0,
    decreases run.len(),
{
    if run.len() == 0 {
        assert(before + run =~= before);
    } else {
        let shorter = run.drop_last();
        let line = run.last();
        assert(all_additions(shorter)) by {
            assert forall|i: int| 0 <= i < shorter.len() implies (#[trigger] shorter[i]).origin
                is Addition by {
                assert(shorter[i] == run[i]);
            }
        }
        lemma_additions_extend(before, shorter);
        let whole = before + run;
        let head = before + shorter;
        assert(whole.drop_last() =~= head);
        assert(whole.last() == line);
        assert(head.len() >= 1);
        assert(whole[whole.len() - 2] == head.last());
        if shorter.len() == 0 {
            assert(head =~= before);
        } else {
            assert(head.last() == shorter.last());
        }
        assert(head.last().origin is Addition || head.last().origin is Deletion);
        let open = line_changes(head);
        assert(line_changes(whole) == open.drop_last().push(
            extended_by_addition(open.last(), line),
        ));
        assert(line_changes(whole).drop_last() =~= open.drop_last());
    }
}

/// Deletions that follow an open deleted range leave its start alone and end
/// it at the line number of the last deletion that has one.
proof fn lemma_deletions_extend(before: Seq<DiffLineView>, run: Seq<DiffLineView>)
    requires
        all_deletions(run),
        before.len() > 0,
        before.last().origin is Deletion,
        line_changes(before).len() > 0,
        line_changes(before).last().change_type is Deleted,
    ensures
        line_changes(before + run).len() == line_changes(before).len(),
        line_changes(before + run).drop_last() == line_changes(before).drop_last(),
        line_changes(before + run).last().start_line == line_changes(before).last().start_line,
        line_changes(before + run).last().change_type is Deleted,
        run.len() > 0 && run.last().old_lineno is Some ==> line_changes(
            before + run,
        ).last().end_line == run.last().old_lineno->0,
    decreases run.len(),
{
    if run.len() == 0 {
        assert(before + run =~= before);
    } else {
        let shorter = run.drop_last();
        let line = run.last();
        assert(all_deletions(shorter)) by {
            assert forall|i: int| 0 <= i < shorter.len() implies (#[trigger] shorter[i]).origin
                is Deletion by {
                assert(shorter[i] == run[i]);
            }
        }
        lemma_deletions_extend(before, shorter);
        let whole = before + run;
        let head = before + shorter;
        assert(whole.drop_last() =~= head);
        assert(whole.last() == line);
        assert(whole[whole.len() - 2] == head.last());
        if shorter.len() == 0 {
            assert(head =~= before);
        } else {
            assert(head.last() == shorter.last());
        }
        let open = line_changes(head);
        assert(line_changes(whole) == open.drop_last().push(
            extended_by_deletion(open.last(), line),
        ));
        assert(line_changes(whole).drop_last() =~= open.drop_last());
    }
}

/// A run of additions that follows no changed line is one added range, from
/// the new line number of its first line to that of its last.
pub proof fn addition_run_is_one_added_range(before: Seq<DiffLineView>, run: Seq<DiffLineView>)
    requires
        run.len() > 0,
        all_additions(run),
        ends_without_change(before),
        run.first().new_lineno is Some,
        run.last().new_lineno is Some,
    ensures
        line_changes(before + run) == line_changes(before).push(
            LineChange {
                start_line: run.first().new_lineno->0,
                end_line: run.last().new_lineno->0,
                change_type: ChangeType::Added,
            },
        ),
{
    let first = run.first();
    let started = before.push(first);
    let rest = run.skip(1);
    assert(started.drop_last() =~= before);
    assert(before.len() > 0 ==> started[started.len() - 2] == before.last());
    assert(line_changes(started) == line_changes(before).push(opened_by_addition(first)));
    assert(all_additions(rest)) by {
        assert forall|i: int| 0 <= i < rest.len() implies (#[trigger] rest[i]).origin
            is Addition by {
            assert(rest[i] == run[i + 1]);
        }
    }
    lemma_additions_extend(started, rest);
    assert(started + rest =~= before + run);
    if rest.len() > 0 {
        assert(rest.last() == run.last());
    } else {
        assert(run.last() == first);
        assert(started + rest =~= started);
    }
    let result = line_changes(before + run);
    assert(line_changes(started).drop_last() =~= line_changes(before));
    assert(result =~= result.drop_last().push(result.last()));
}

/// A run of deletions that follows no deletion, and that no addition
/// follows, is one deleted range, from the old line number of its first
/// line to that of its last.
pub proof fn deletion_run_is_one_deleted_range(before: Seq<DiffLineView>, run: Seq<DiffLineView>)
    requires
        run.len() > 0,
        all_deletions(run),
        ends_without_deletion(before),
        run.first().old_lineno is Some,
        run.last().old_lineno is Some,
    ensures
        line_changes(before + run) == line_changes(before).push(
            LineChange {
                start_line: run.first().old_lineno->0,
                end_line: run.last().old_lineno->0,
                change_type: ChangeType::Deleted,
            },
        ),
{
    let first = run.first();
    let started = before.push(first);
    let rest = run.skip(1);
    assert(started.drop_last() =~= before);
    assert(before.len() > 0 ==> started[started.len() - 2] == before.last());
    assert(line_changes(started) == line_changes(before).push(opened_by_deletion(first)));
    assert(all_deletions(rest)) by {
        assert forall|i: int| 0 <= i < rest.len() implies (#[trigger] rest[i]).origin
            is Deletion by {
            assert(rest[i] == run[i + 1]);
        }
    }
    lemma_deletions_extend(started, rest);
    assert(started + rest =~= before + run);
    if rest.len() > 0 {
        assert(rest.last() == run.last());
    } else {
        assert(run.last() == first);
        assert(started + rest =~= started);
    }
    let result = line_changes(before + run);
    assert(line_changes(started).drop_last() =~= line_changes(before));
    assert(result =~= result.drop_last().push(result.last()));
}

/// A run of deletions that follows no deletion, together with the run of
/// additions that directly follows it, is one modified range, from the old
/// line number of the first deletion to the new line number of the last
/// addition: a replacement, and not a deleted range and an added one.
pub proof fn replaced_run_is_one_modified_range(
    before: Seq<DiffLineView>,
    deleted: Seq<DiffLineView>,
    added: Seq<DiffLineView>,
)
    requires
        deleted.len() > 0,
        added.len() > 0,
        all_deletions(deleted),
        all_additions(added),
        ends_without_deletion(before),
        deleted.first().old_lineno is Some,
        added.last().new_lineno is Some,
    ensures
        line_changes(before + deleted + added) == line_changes(before).push(
            LineChange {
                start_line: deleted.first().old_lineno->0,
                end_line: added.last().new_lineno->0,
                change_type: ChangeType::Modified,
            },
        ),
{
    let first = deleted.first();
    let started = before.push(first);
    let rest = deleted.skip(1);
    assert(started.drop_last() =~= before);
    assert(before.len() > 0 ==> started[started.len() - 2] == before.last());
    assert(line_changes(started) == line_changes(before).push(opened_by_deletion(first)));
    assert(all_deletions(rest)) by {
        assert forall|i: int| 0 <= i < rest.len() implies (#[trigger] rest[i]).origin
            is Deletion by {
            assert(rest[i] == deleted[i + 1]);
        }
    }
    lemma_deletions_extend(started, rest);
    assert(started + rest =~= before + deleted);
    let removed = before + deleted;
    assert(removed.last() == deleted.last());
    assert(line_changes(started).drop_last() =~= line_changes(before));
    lemma_additions_extend(removed, added);
    let result = line_changes(removed + added);
    assert(result =~= result.drop_last().push(result.last()));
}

} // verus!
