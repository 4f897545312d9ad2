use vstd::prelude::*;

use crate::session::SearchSession;

verus! {

/// One listed candidate as a renderer draws it.
#[derive(Clone, Debug)]
pub struct Row {
    pub text: String,
    pub highlighted: bool,
}

/// The rows to draw for `session`: each listed candidate in order, the selected one
/// highlighted and no other.
pub fn rows(session: &SearchSession) -> (r: Vec<Row>)
    ensures
        r@.len() == session@.results.len(),
        forall|i: int|
            0 <= i < r@.len() ==> r@[i].text@ == session@.results[i]@ && r@[i].highlighted == (i
                == session@.selection),
{
    let results = session.results();
    let selection = session.selection();
    let mut r: Vec<Row> = Vec::new();
    let mut i: usize = 0;
    while i < results.len()
        invariant
            results@ == session@.results,
            match selection {
                Some(k) => session@.selection == k,
                None => session@.selection == -1,
            },
            i <= results@.len(),
            r@.len() == i,
            forall|j: int|
                0 <= j < i ==> r@[j].text@ == session@.results[j]@ && r@[j].highlighted == (j
                    == session@.selection),
        decreases results@.len() - i,
    {
        let highlighted = match selection {
            Some(k) => k == i,
            None => false,
        };
        r.push(Row { text: results[i].clone(), highlighted });
        i = i + 1;
    }
    r
}

} // verus!
