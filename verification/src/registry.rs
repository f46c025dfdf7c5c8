//! The auto-open registry: an ordered sequence of 4-field records
//! `mount_point,path,namespace,id`, one comma-delimited record per
//! newline-terminated line.  The registry file itself is owned by the
//! caller, who passes its text in and writes the returned text back;
//! this module holds the verified codec and the append and remove
//! operations, which only ever append a line or rewrite the whole text.

use vstd::prelude::*;

verus! {

use vstd::string::StrSliceExecFns;
use vstd::string::StringExecFns;
use crate::errors::SecureContainerErr;
use crate::text::contains_char;
use crate::text::split_on;
use crate::text::split_string;
use crate::text::str_eq;
use crate::text::lemma_split_on_concat;
use crate::text::lemma_split_on_whole;
use crate::text::lemma_contains_char_concat;
use crate::validation::validate_spec;
use crate::validation::probe_answer;
use crate::validation::check_input;

/// A field may hold neither the record delimiter nor the line
/// terminator.
pub open spec fn clean_field(f: Seq<char>) -> bool {
    !contains_char(f, ',') && !contains_char(f, '\n')
}

/// The line appended for one registry entry.
pub open spec fn entry_line(mp: Seq<char>, path: Seq<char>, ns: Seq<char>, id: Seq<char>)
    -> Seq<char> {
    mp + seq![','] + path + seq![','] + ns + seq![','] + id + seq!['\n']
}

/// The records parsed from a sequence of lines: each line is split on
/// commas, and single-field lines are silently dropped.
pub open spec fn parse_lines(lines: Seq<Seq<char>>) -> Seq<Seq<Seq<char>>>
    decreases lines.len(),
{
    if lines.len() == 0 {
        Seq::<Seq<Seq<char>>>::empty()
    } else {
        let fields = split_on(lines[0], ',');
        let rest = parse_lines(lines.drop_first());
        if fields.len() > 1 {
            seq![fields] + rest
        } else {
            rest
        }
    }
}

/// The records held in the registry text.
pub open spec fn parse_records(text: Seq<char>) -> Seq<Seq<Seq<char>>> {
    parse_lines(split_on(text, '\n'))
}

/// A record equals the given 4-tuple on all four fields.
pub open spec fn record_matches(
    fields: Seq<Seq<char>>,
    mp: Seq<char>,
    path: Seq<char>,
    ns: Seq<char>,
    id: Seq<char>,
) -> bool {
    fields.len() >= 4 && fields[0] == mp && fields[1] == path && fields[2] == ns && fields[3]
        == id
}

/// The records left after removing every exact-tuple match.
pub open spec fn remove_records(
    records: Seq<Seq<Seq<char>>>,
    mp: Seq<char>,
    path: Seq<char>,
    ns: Seq<char>,
    id: Seq<char>,
) -> Seq<Seq<Seq<char>>>
    decreases records.len(),
{
    if records.len() == 0 {
        Seq::<Seq<Seq<char>>>::empty()
    } else {
        let rest = remove_records(records.drop_first(), mp, path, ns, id);
        if record_matches(records[0], mp, path, ns, id) {
            rest
        } else {
            seq![records[0]] + rest
        }
    }
}

/// The registry text rendering each record's first four fields as one
/// line.
pub open spec fn render_records(records: Seq<Seq<Seq<char>>>) -> Seq<char>
    decreases records.len(),
{
    if records.len() == 0 {
        Seq::<char>::empty()
    } else {
        entry_line(records[0][0], records[0][1], records[0][2], records[0][3]) + render_records(
            records.drop_first(),
        )
    }
}

/// A well-formed registry: every record has exactly four clean fields.
pub open spec fn wf_records(records: Seq<Seq<Seq<char>>>) -> bool {
    forall|k: int|
        0 <= k < records.len() ==> (#[trigger] records[k]).len() == 4 && clean_field(
            records[k][0],
        ) && clean_field(records[k][1]) && clean_field(records[k][2]) && clean_field(
            records[k][3],
        )
}

/// Parses the registry text into its records: one per multi-field
/// line, single-field lines dropped.
pub fn reading_auto_open(contents: &str) -> (r: Vec<Vec<String>>)
    ensures
        r.deep_view() == parse_records(contents@),
{
    let lines = split_string(contents, '\n');
    let mut records: Vec<Vec<String>> = Vec::new();
    let mut i: usize = 0;
    proof {
        assert(lines.deep_view().skip(0) =~= lines.deep_view());
        assert(records.deep_view() + parse_lines(lines.deep_view()) =~= parse_lines(
            lines.deep_view(),
        ));
    }
    while i < lines.len()
        invariant
            0 <= i <= lines.len(),
            lines.deep_view() == split_on(contents@, '\n'),
            parse_lines(lines.deep_view()) == records.deep_view() + parse_lines(
                lines.deep_view().skip(i as int),
            ),
        decreases lines.len() - i,
    {
        let ghost lseq = lines.deep_view();
        proof {
            assert(lseq.skip(i as int)[0] == lseq[i as int]);
            assert(lseq.skip(i as int).drop_first() =~= lseq.skip(i as int + 1));
            assert(lines[i as int]@ == lseq[i as int]);
        }
        let fields = split_string(lines[i].as_str(), ',');
        if fields.len() > 1 {
            let ghost old_records = records.deep_view();
            let ghost fv = fields.deep_view();
            records.push(fields);
            proof {
                assert(records.deep_view() =~= old_records + seq![fv]);
                assert(parse_lines(lseq.skip(i as int)) == seq![fv] + parse_lines(
                    lseq.skip(i as int + 1),
                ));
                assert(old_records + (seq![fv] + parse_lines(lseq.skip(i as int + 1)))
                    =~= (old_records + seq![fv]) + parse_lines(lseq.skip(i as int + 1)));
            }
        } else {
            proof {
                assert(parse_lines(lseq.skip(i as int)) == parse_lines(lseq.skip(i as int + 1)));
            }
        }
        i = i + 1;
    }
    proof {
        assert(lines.deep_view().skip(lines.deep_view().len() as int)
            =~= Seq::<Seq<char>>::empty());
        assert(records.deep_view() + Seq::<Seq<Seq<char>>>::empty() =~= records.deep_view());
    }
    records
}

/// Renders one entry as its registry line.
pub fn render_entry(mount_point: &str, path: &str, namespace: &str, id: &str) -> (r: String)
    ensures
        r@ == entry_line(mount_point@, path@, namespace@, id@),
{
    proof {
        reveal_strlit(",");
        reveal_strlit("\n");
        assert(","@ =~= seq![',']);
        assert("\n"@ =~= seq!['\n']);
    }
    mount_point.to_owned().concat(",").concat(path).concat(",").concat(namespace).concat(
        ",",
    ).concat(id).concat("\n")
}

/// The registry text with one entry appended; the caller creates the
/// file first if it is absent and writes the result back.
pub fn writing_to_auto_open(
    mount_point: &str,
    path: &str,
    namespace: &str,
    id: &str,
    contents: &str,
) -> (r: String)
    ensures
        r@ == contents@ + entry_line(mount_point@, path@, namespace@, id@),
{
    let line = render_entry(mount_point, path, namespace, id);
    contents.to_owned().concat(line.as_str())
}

/// Validates the entry, then appends it to the registry text.  The
/// result is `Ok` with the new text exactly when validation passes; a
/// failed validation returns its error and leaves the registry alone.
pub fn add_to_auto_open(
    mount_point: &str,
    path: &str,
    namespace: &str,
    id: &str,
    path_is_container: bool,
    contents: &str,
) -> (r: Result<String, SecureContainerErr>)
    ensures
        exists|mp_dir: bool, p_file: bool|
            {
                match #[trigger] validate_spec(
                    None,
                    probe_answer(true, mp_dir),
                    Some(path@),
                    p_file,
                    path_is_container,
                    Some(namespace@),
                    Some(id@),
                ) {
                    Ok(()) => r is Ok && r->Ok_0@ == contents@ + entry_line(
                        mount_point@,
                        path@,
                        namespace@,
                        id@,
                    ),
                    Err(e) => r == Err::<String, SecureContainerErr>(e),
                }
            },
{
    let check = check_input(
        None,
        Some(mount_point),
        Some(path),
        Some(namespace),
        Some(id),
        path_is_container,
    );
    match check {
        Ok(()) => Ok(writing_to_auto_open(mount_point, path, namespace, id, contents)),
        Err(e) => Err(e),
    }
}

/// A field-by-field copy of one record.
fn clone_record(rec: &Vec<String>) -> (r: Vec<String>)
    ensures
        r.deep_view() == rec.deep_view(),
{
    let mut out: Vec<String> = Vec::new();
    let mut i: usize = 0;
    while i < rec.len()
        invariant
            0 <= i <= rec@.len(),
            out@.len() == i,
            forall|k: int| 0 <= k < i ==> out@[k] == rec@[k],
        decreases rec@.len() - i,
    {
        out.push(rec[i].clone());
        i = i + 1;
    }
    proof {
        assert(out.deep_view() =~= rec.deep_view());
    }
    out
}

/// Rewrites the registry text with every record matching the 4-tuple
/// on all four fields removed; all other records are kept in order.
pub fn remove_from_auto_open(
    mount_point: &str,
    path: &str,
    namespace: &str,
    id: &str,
    contents: &str,
) -> (r: String)
    requires
        forall|k: int|
            0 <= k < parse_records(contents@).len() ==> (#[trigger] parse_records(contents@)[k])
                .len() >= 4,
    ensures
        r@ == render_records(
            remove_records(parse_records(contents@), mount_point@, path@, namespace@, id@),
        ),
{
    let records = reading_auto_open(contents);
    let ghost all = records.deep_view();
    let mut kept: Vec<Vec<String>> = Vec::new();
    let mut i: usize = 0;
    proof {
        assert(all.skip(0) =~= all);
        assert(kept.deep_view() + remove_records(all, mount_point@, path@, namespace@, id@)
            =~= remove_records(all, mount_point@, path@, namespace@, id@));
    }
    while i < records.len()
        invariant
            0 <= i <= records.len(),
            all == records.deep_view(),
            all == parse_records(contents@),
            forall|k: int| 0 <= k < all.len() ==> (#[trigger] all[k]).len() >= 4,
            remove_records(all, mount_point@, path@, namespace@, id@) == kept.deep_view()
                + remove_records(
                all.skip(i as int),
                mount_point@,
                path@,
                namespace@,
                id@,
            ),
            forall|k: int| 0 <= k < kept.deep_view().len() ==> (#[trigger] kept.deep_view()[k])
                .len() >= 4,
        decreases records.len() - i,
    {
        proof {
            assert(all.skip(i as int)[0] == all[i as int]);
            assert(all.skip(i as int).drop_first() =~= all.skip(i as int + 1));
            assert(records[i as int].deep_view() == all[i as int]);
        }
        let rec = &records[i];
        let is_match = rec.len() >= 4 && str_eq(rec[0].as_str(), mount_point) && str_eq(
            rec[1].as_str(),
            path,
        ) && str_eq(rec[2].as_str(), namespace) && str_eq(rec[3].as_str(), id);
        proof {
            assert(rec.deep_view()[0] == rec[0]@);
            assert(rec.deep_view()[1] == rec[1]@);
            assert(rec.deep_view()[2] == rec[2]@);
            assert(rec.deep_view()[3] == rec[3]@);
            assert(is_match == record_matches(
                all[i as int],
                mount_point@,
                path@,
                namespace@,
                id@,
            ));
        }
        if !is_match {
            let ghost old_kept = kept.deep_view();
            let copy = clone_record(&records[i]);
            kept.push(copy);
            proof {
                assert(kept.deep_view() =~= old_kept + seq![all[i as int]]);
                assert(remove_records(all.skip(i as int), mount_point@, path@, namespace@, id@)
                    == seq![all[i as int]] + remove_records(
                    all.skip(i as int + 1),
                    mount_point@,
                    path@,
                    namespace@,
                    id@,
                ));
                assert(old_kept + (seq![all[i as int]] + remove_records(
                    all.skip(i as int + 1),
                    mount_point@,
                    path@,
                    namespace@,
                    id@,
                )) =~= (old_kept + seq![all[i as int]]) + remove_records(
                    all.skip(i as int + 1),
                    mount_point@,
                    path@,
                    namespace@,
                    id@,
                ));
            }
        } else {
            proof {
                assert(remove_records(all.skip(i as int), mount_point@, path@, namespace@, id@)
                    == remove_records(all.skip(i as int + 1), mount_point@, path@, namespace@, id@));
            }
        }
        i = i + 1;
    }
    proof {
        assert(all.skip(all.len() as int) =~= Seq::<Seq<Seq<char>>>::empty());
        assert(kept.deep_view() + Seq::<Seq<Seq<char>>>::empty() =~= kept.deep_view());
    }
    // render the kept records back to text
    let ghost keptv = kept.deep_view();
    let mut out: String = String::new();
    let mut j: usize = 0;
    proof {
        assert(keptv.skip(0) =~= keptv);
        assert(out@ + render_records(keptv) =~= render_records(keptv));
    }
    while j < kept.len()
        invariant
            0 <= j <= kept.len(),
            keptv == kept.deep_view(),
            forall|k: int| 0 <= k < keptv.len() ==> (#[trigger] keptv[k]).len() >= 4,
            render_records(keptv) == out@ + render_records(keptv.skip(j as int)),
        decreases kept.len() - j,
    {
        proof {
            assert(keptv.skip(j as int)[0] == keptv[j as int]);
            assert(keptv.skip(j as int).drop_first() =~= keptv.skip(j as int + 1));
            assert(kept[j as int].deep_view() == keptv[j as int]);
            assert(kept[j as int].deep_view()[0] == kept[j as int][0]@);
            assert(kept[j as int].deep_view()[1] == kept[j as int][1]@);
            assert(kept[j as int].deep_view()[2] == kept[j as int][2]@);
            assert(kept[j as int].deep_view()[3] == kept[j as int][3]@);
        }
        let rec = &kept[j];
        let line = render_entry(
            rec[0].as_str(),
            rec[1].as_str(),
            rec[2].as_str(),
            rec[3].as_str(),
        );
        proof {
            assert(render_records(keptv.skip(j as int)) == entry_line(
                keptv[j as int][0],
                keptv[j as int][1],
                keptv[j as int][2],
                keptv[j as int][3],
            ) + render_records(keptv.skip(j as int + 1)));
            assert(out@ + (line@ + render_records(keptv.skip(j as int + 1))) =~= (out@ + line@)
                + render_records(keptv.skip(j as int + 1)));
        }
        out.append(line.as_str());
        j = j + 1;
    }
    proof {
        assert(keptv.skip(keptv.len() as int) =~= Seq::<Seq<Seq<char>>>::empty());
        assert(out@ + Seq::<char>::empty() =~= out@);
    }
    out
}

/// The body of an entry line splits back into exactly its four fields,
/// and holds no line terminator.
proof fn lemma_entry_fields(mp: Seq<char>, path: Seq<char>, ns: Seq<char>, id: Seq<char>)
    requires
        clean_field(mp),
        clean_field(path),
        clean_field(ns),
        clean_field(id),
    ensures
        split_on(mp + seq![','] + path + seq![','] + ns + seq![','] + id, ',') == seq![
            mp,
            path,
            ns,
            id,
        ],
        !contains_char(mp + seq![','] + path + seq![','] + ns + seq![','] + id, '\n'),
{
    let c = seq![','];
    let t2 = ns + c + id;
    let t1 = path + c + t2;
    let body = mp + c + path + c + ns + c + id;
    lemma_split_on_whole(id, ',');
    lemma_split_on_concat(ns, id, ',');
    assert(split_on(t2, ',') =~= seq![ns, id]);
    lemma_split_on_concat(path, t2, ',');
    assert(split_on(t1, ',') =~= seq![path] + seq![ns, id]);
    assert(split_on(t1, ',') =~= seq![path, ns, id]);
    assert(body =~= mp + c + t1);
    lemma_split_on_concat(mp, t1, ',');
    assert(split_on(body, ',') =~= seq![mp] + seq![path, ns, id]);
    assert(split_on(body, ',') =~= seq![mp, path, ns, id]);
    assert(!contains_char(c, '\n')) by {
        if contains_char(c, '\n') {
            let i = choose|i: int| 0 <= i < c.len() && c[i] == '\n';
            assert(c[0] == ',');
        }
    }
    lemma_contains_char_concat(mp, c, '\n');
    lemma_contains_char_concat(mp + c, path, '\n');
    lemma_contains_char_concat(mp + c + path, c, '\n');
    lemma_contains_char_concat(mp + c + path + c, ns, '\n');
    lemma_contains_char_concat(mp + c + path + c + ns, c, '\n');
    lemma_contains_char_concat(mp + c + path + c + ns + c, id, '\n');
}

/// Reading back a well-formed registry rendering yields exactly its
/// records.
pub proof fn lemma_registry_round_trip(rs: Seq<Seq<Seq<char>>>)
    requires
        wf_records(rs),
    ensures
        parse_records(render_records(rs)) == rs,
    decreases rs.len(),
{
    if rs.len() == 0 {
        assert(render_records(rs) =~= Seq::<char>::empty());
        assert(split_on(Seq::<char>::empty(), '\n') =~= seq![Seq::<char>::empty()]);
        let lines = seq![Seq::<char>::empty()];
        assert(split_on(lines[0], ',') =~= seq![Seq::<char>::empty()]);
        assert(split_on(lines[0], ',').len() == 1);
        assert(lines.drop_first() =~= Seq::<Seq<char>>::empty());
        assert(parse_lines(Seq::<Seq<char>>::empty()) == Seq::<Seq<Seq<char>>>::empty());
        assert(parse_lines(lines) == parse_lines(lines.drop_first()));
        assert(rs =~= Seq::<Seq<Seq<char>>>::empty());
        assert(parse_lines(lines) == rs);
    } else {
        let rec = rs[0];
        let body = rec[0] + seq![','] + rec[1] + seq![','] + rec[2] + seq![','] + rec[3];
        let rest = rs.drop_first();
        assert(wf_records(rest)) by {
            assert(forall|k: int| 0 <= k < rest.len() ==> rest[k] == rs[k + 1]);
        }
        lemma_registry_round_trip(rest);
        lemma_entry_fields(rec[0], rec[1], rec[2], rec[3]);
        let text = render_records(rs);
        assert(text == entry_line(rec[0], rec[1], rec[2], rec[3]) + render_records(rest));
        assert(text =~= body + seq!['\n'] + render_records(rest));
        lemma_split_on_concat(body, render_records(rest), '\n');
        let lines = split_on(text, '\n');
        assert(lines == seq![body] + split_on(render_records(rest), '\n'));
        assert(lines[0] == body);
        assert(lines.drop_first() =~= split_on(render_records(rest), '\n'));
        assert(split_on(body, ',') == seq![rec[0], rec[1], rec[2], rec[3]]);
        assert(split_on(body, ',').len() == 4);
        assert(seq![rec[0], rec[1], rec[2], rec[3]] =~= rec);
        let rest_lines = split_on(render_records(rest), '\n');
        assert(parse_lines(lines) == seq![rec] + parse_lines(rest_lines));
        assert(parse_lines(rest_lines) == rest);
        assert(seq![rec] + rest =~= rs) by {
            assert(forall|k: int| 1 <= k < rs.len() ==> (seq![rec] + rest)[k] == rs[k]);
        }
        assert(parse_lines(lines) == rs);
    }
}

/// Rendering distributes over appending one record.
proof fn lemma_render_records_snoc(rs: Seq<Seq<Seq<char>>>, rec: Seq<Seq<char>>)
    ensures
        render_records(rs.push(rec)) == render_records(rs) + entry_line(
            rec[0],
            rec[1],
            rec[2],
            rec[3],
        ),
    decreases rs.len(),
{
    if rs.len() == 0 {
        let v = rs.push(rec);
        assert(v.len() == 1);
        assert(v[0] == rec);
        assert(v.drop_first().len() == 0);
        assert(render_records(v.drop_first()) == Seq::<char>::empty());
        assert(render_records(v) == entry_line(v[0][0], v[0][1], v[0][2], v[0][3])
            + render_records(v.drop_first()));
        assert(render_records(rs) == Seq::<char>::empty());
        assert(render_records(v) =~= render_records(rs) + entry_line(
            rec[0],
            rec[1],
            rec[2],
            rec[3],
        ));
    } else {
        assert(rs.push(rec)[0] == rs[0]);
        assert(rs.push(rec).drop_first() =~= rs.drop_first().push(rec));
        lemma_render_records_snoc(rs.drop_first(), rec);
        assert(render_records(rs.push(rec)) == entry_line(rs[0][0], rs[0][1], rs[0][2], rs[0][3])
            + (render_records(rs.drop_first()) + entry_line(rec[0], rec[1], rec[2], rec[3])));
        assert(entry_line(rs[0][0], rs[0][1], rs[0][2], rs[0][3]) + (render_records(
            rs.drop_first(),
        ) + entry_line(rec[0], rec[1], rec[2], rec[3])) =~= (entry_line(
            rs[0][0],
            rs[0][1],
            rs[0][2],
            rs[0][3],
        ) + render_records(rs.drop_first())) + entry_line(rec[0], rec[1], rec[2], rec[3]));
    }
}

/// Appending an entry to a well-formed registry and reading the text
/// back yields the old records followed by exactly that entry.
pub proof fn lemma_registry_append_round_trip(
    rs: Seq<Seq<Seq<char>>>,
    mp: Seq<char>,
    path: Seq<char>,
    ns: Seq<char>,
    id: Seq<char>,
)
    requires
        wf_records(rs),
        clean_field(mp),
        clean_field(path),
        clean_field(ns),
        clean_field(id),
    ensures
        parse_records(render_records(rs) + entry_line(mp, path, ns, id)) == rs.push(
            seq![mp, path, ns, id],
        ),
{
    let rec = seq![mp, path, ns, id];
    lemma_render_records_snoc(rs, rec);
    assert(wf_records(rs.push(rec))) by {
        assert(forall|k: int| 0 <= k < rs.len() ==> rs.push(rec)[k] == rs[k]);
        assert(rs.push(rec)[rs.len() as int] == rec);
    }
    lemma_registry_round_trip(rs.push(rec));
}

/// No record matching the removed tuple survives a removal.
pub proof fn lemma_remove_records_no_match(
    rs: Seq<Seq<Seq<char>>>,
    mp: Seq<char>,
    path: Seq<char>,
    ns: Seq<char>,
    id: Seq<char>,
)
    ensures
        forall|k: int|
            0 <= k < remove_records(rs, mp, path, ns, id).len() ==> !record_matches(
                #[trigger] remove_records(rs, mp, path, ns, id)[k],
                mp,
                path,
                ns,
                id,
            ),
    decreases rs.len(),
{
    if rs.len() > 0 {
        lemma_remove_records_no_match(rs.drop_first(), mp, path, ns, id);
        let rest = remove_records(rs.drop_first(), mp, path, ns, id);
        if !record_matches(rs[0], mp, path, ns, id) {
            assert(forall|k: int|
                1 <= k < (seq![rs[0]] + rest).len() ==> (seq![rs[0]] + rest)[k] == rest[k - 1]);
        }
    }
}

/// Removal only ever drops records: what it keeps was already there.
proof fn lemma_remove_records_subset(
    rs: Seq<Seq<Seq<char>>>,
    mp: Seq<char>,
    path: Seq<char>,
    ns: Seq<char>,
    id: Seq<char>,
)
    ensures
        forall|k: int|
            0 <= k < remove_records(rs, mp, path, ns, id).len() ==> exists|j: int|
                0 <= j < rs.len() && #[trigger] remove_records(rs, mp, path, ns, id)[k] == rs[j],
    decreases rs.len(),
{
    if rs.len() > 0 {
        lemma_remove_records_subset(rs.drop_first(), mp, path, ns, id);
        let rest = remove_records(rs.drop_first(), mp, path, ns, id);
        assert(forall|j: int| 0 <= j < rs.drop_first().len() ==> rs.drop_first()[j] == rs[j + 1]);
        if record_matches(rs[0], mp, path, ns, id) {
            assert forall|k: int| 0 <= k < rest.len() implies exists|j: int|
                0 <= j < rs.len() && #[trigger] rest[k] == rs[j] by {
                let j = choose|j: int|
                    0 <= j < rs.drop_first().len() && rest[k] == rs.drop_first()[j];
                assert(rest[k] == rs[j + 1]);
            }
        } else {
            let whole = seq![rs[0]] + rest;
            assert forall|k: int| 0 <= k < whole.len() implies exists|j: int|
                0 <= j < rs.len() && #[trigger] whole[k] == rs[j] by {
                if k == 0 {
                    assert(whole[0] == rs[0]);
                } else {
                    assert(whole[k] == rest[k - 1]);
                    let j = choose|j: int|
                        0 <= j < rs.drop_first().len() && rest[k - 1] == rs.drop_first()[j];
                    assert(whole[k] == rs[j + 1]);
                }
            }
        }
    }
}

/// A registry in which nothing matches is left untouched by removal.
proof fn lemma_remove_records_fixpoint(
    rs: Seq<Seq<Seq<char>>>,
    mp: Seq<char>,
    path: Seq<char>,
    ns: Seq<char>,
    id: Seq<char>,
)
    requires
        forall|k: int|
            0 <= k < rs.len() ==> !record_matches(#[trigger] rs[k], mp, path, ns, id),
    ensures
        remove_records(rs, mp, path, ns, id) == rs,
    decreases rs.len(),
{
    if rs.len() > 0 {
        assert(forall|k: int| 0 <= k < rs.drop_first().len() ==> rs.drop_first()[k] == rs[k + 1]);
        lemma_remove_records_fixpoint(rs.drop_first(), mp, path, ns, id);
        assert(seq![rs[0]] + rs.drop_first() =~= rs);
    }
}

/// Removing an entry leaves no matching record; removing it a second
/// time changes nothing; and, for a well-formed registry, reading the
/// rewritten text back yields exactly the remaining records.
pub proof fn lemma_registry_remove_round_trip(
    rs: Seq<Seq<Seq<char>>>,
    mp: Seq<char>,
    path: Seq<char>,
    ns: Seq<char>,
    id: Seq<char>,
)
    requires
        wf_records(rs),
    ensures
        forall|k: int|
            0 <= k < remove_records(rs, mp, path, ns, id).len() ==> !record_matches(
                #[trigger] remove_records(rs, mp, path, ns, id)[k],
                mp,
                path,
                ns,
                id,
            ),
        remove_records(remove_records(rs, mp, path, ns, id), mp, path, ns, id) == remove_records(
            rs,
            mp,
            path,
            ns,
            id,
        ),
        parse_records(render_records(remove_records(rs, mp, path, ns, id))) == remove_records(
            rs,
            mp,
            path,
            ns,
            id,
        ),
{
    let out = remove_records(rs, mp, path, ns, id);
    lemma_remove_records_no_match(rs, mp, path, ns, id);
    lemma_remove_records_fixpoint(out, mp, path, ns, id);
    lemma_remove_records_subset(rs, mp, path, ns, id);
    assert(wf_records(out)) by {
        assert forall|k: int| 0 <= k < out.len() implies (#[trigger] out[k]).len() == 4
            && clean_field(out[k][0]) && clean_field(out[k][1]) && clean_field(out[k][2])
            && clean_field(out[k][3]) by {
            let j = choose|j: int| 0 <= j < rs.len() && out[k] == rs[j];
            assert(rs[j].len() == 4 && clean_field(rs[j][0]) && clean_field(rs[j][1])
                && clean_field(rs[j][2]) && clean_field(rs[j][3]));
        }
    }
    lemma_registry_round_trip(out);
}

} // verus!
