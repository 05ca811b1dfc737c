//! Showing what the registry lists.
use crate::mlflow::model_registry::ModelRegistryRecord;
use crate::text::{decimal, decimal_text, text_views};
use vstd::prelude::*;
use vstd::string::*;

verus! {

/// The line that shows an entry of the registry: its name and its two
/// timestamps, with ` / ` between them.
pub open spec fn record_line(record: ModelRegistryRecord) -> Seq<char> {
    record.name@ + " / "@ + decimal_text(record.creation_timestamp as nat) + " / "@ + decimal_text(
        record.last_updated_timestamp as nat,
    )
}

/// The lines that show the entries, in the order of the entries.
pub open spec fn record_lines(records: Seq<ModelRegistryRecord>) -> Seq<Seq<char>> {
    records.map_values(|r: ModelRegistryRecord| record_line(r))
}

/// Words the lines that show what the registry lists, one for each entry.
pub fn main(models: &Vec<ModelRegistryRecord>) -> (r: Vec<String>)
    ensures
        text_views(r@) == record_lines(models@),
{
    let mut out: Vec<String> = Vec::new();
    let mut i: usize = 0;
    while i < models.len()
        invariant
            i <= models.len(),
            text_views(out@) == record_lines(models@.take(i as int)),
        decreases models.len() - i,
    {
        let ghost before = out@;
        let x = &models[i];
        let mut line = x.name.clone();
        line.append(" / ");
        line.append(decimal(x.creation_timestamp).as_str());
        line.append(" / ");
        line.append(decimal(x.last_updated_timestamp).as_str());
        out.push(line);
        proof {
            assert(models@.take(i + 1) == models@.take(i as int).push(models@[i as int]));
            assert(text_views(before.push(line)) =~= text_views(before).push(line@));
            assert(record_lines(models@.take(i as int).push(models@[i as int])) =~= record_lines(
                models@.take(i as int),
            ).push(record_line(models@[i as int])));
        }
        i += 1;
    }
    assert(models@.take(models@.len() as int) == models@);
    out
}

} // verus!
