//! The results log: one record per line, and records only ever added at
//! the end.

use vstd::prelude::*;
use vstd::string::*;
use crate::text::{concat, lemma_concat_add, texts};

verus! {

/// A record and the separator that ends it.
pub open spec fn line_of(record: Seq<char>) -> Seq<char> {
    record + seq!['\n']
}

/// The lines of a list of records, one after the other.
pub open spec fn lines_of(records: Seq<Seq<char>>) -> Seq<char> {
    concat(records.map_values(|record: Seq<char>| line_of(record)))
}

/// The log after the records have been appended to it.
pub open spec fn appended(log: Seq<char>, records: Seq<Seq<char>>) -> Seq<char> {
    log + lines_of(records)
}

/// The line that a record adds to the log.
pub fn record_line(record: &str) -> (line: String)
    ensures
        line@ == line_of(record@),
{
    proof {
        reveal_strlit("\n");
    }
    let line = record.to_owned().concat("\n");
    assert(line@ =~= line_of(record@));
    line
}

/// What a list of records adds to the log: the line of each, in order.
pub fn log_chunk(records: &Vec<String>) -> (chunk: String)
    ensures
        chunk@ == lines_of(texts(records@)),
{
    let mut chunk = String::new();
    let mut i: usize = 0;
    assert(texts(records@).take(0) =~= Seq::<Seq<char>>::empty());
    assert(lines_of(Seq::<Seq<char>>::empty()) =~= Seq::<char>::empty());
    while i < records.len()
        invariant
            i <= records.len(),
            chunk@ == lines_of(texts(records@).take(i as int)),
        decreases records.len() - i,
    {
        let line = record_line(records[i].as_str());
        proof {
            let all = texts(records@);
            let sofar = all.take(i as int);
            let next = all.take(i + 1);
            assert(next =~= sofar + seq![records@[i as int]@]);
            lemma_lines_add(sofar, seq![records@[i as int]@]);
            lemma_lines_one(records@[i as int]@);
        }
        chunk.append(line.as_str());
        i = i + 1;
    }
    assert(texts(records@).take(records.len() as int) =~= texts(records@));
    chunk
}

/// The lines of one record are its line.
pub proof fn lemma_lines_one(record: Seq<char>)
    ensures
        lines_of(seq![record]) == line_of(record),
{
    let lines = seq![record].map_values(|record: Seq<char>| line_of(record));
    assert(lines.drop_last() =~= Seq::<Seq<char>>::empty());
    assert(concat(Seq::<Seq<char>>::empty()) =~= Seq::<char>::empty());
    assert(lines.last() == line_of(record));
    assert(concat(lines) =~= line_of(record));
}

/// The lines of two lists of records, one after the other, are the lines
/// of the first followed by the lines of the second.
pub proof fn lemma_lines_add(first: Seq<Seq<char>>, second: Seq<Seq<char>>)
    ensures
        lines_of(first + second) == lines_of(first) + lines_of(second),
{
    let to_line = |record: Seq<char>| line_of(record);
    assert((first + second).map_values(to_line) =~= first.map_values(to_line) + second.map_values(
        to_line,
    ));
    lemma_concat_add(first.map_values(to_line), second.map_values(to_line));
}

/// The log is append-only. After two runs in a row the log is the log as
/// it was, then the lines of the first run, then, right behind them, the
/// lines of the second run. What the log held after the first run is
/// still there, character for character, at the same place.
pub proof fn lemma_append_only(log: Seq<char>, first: Seq<Seq<char>>, second: Seq<Seq<char>>)
    ensures
        appended(appended(log, first), second) == log + lines_of(first) + lines_of(second),
        appended(appended(log, first), second) == appended(log, first + second),
        appended(log, first).len() <= appended(appended(log, first), second).len(),
        appended(appended(log, first), second).take(appended(log, first).len() as int) == appended(
            log,
            first,
        ),
        appended(appended(log, first), second).skip(appended(log, first).len() as int) == lines_of(
            second,
        ),
{
    let after_first = appended(log, first);
    let after_second = appended(after_first, second);
    lemma_lines_add(first, second);
    assert(after_second =~= log + (lines_of(first) + lines_of(second)));
    assert(after_second.take(after_first.len() as int) =~= after_first);
    assert(after_second.skip(after_first.len() as int) =~= lines_of(second));
}

} // verus!
