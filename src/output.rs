use vstd::prelude::*;

use crate::cosmic::{first_hit, Mode, lemma_first_hit_none, lemma_first_hit_some, output_pos, AppData, OutputInfo};
use crate::print::{json_joined, joined, views, Printer};
use crate::print::json::{comma_text, key_text};

verus! {

/// The name under which a user addresses an output: its advertised name,
/// else make and model joined by `+`.
pub open spec fn display_name_of(o: OutputInfo) -> Seq<char> {
    match o.name {
        Some(n) => n@,
        None => o.make@ + seq!['+'] + o.model@,
    }
}

pub fn display_name(output: &OutputInfo) -> (r: String)
    ensures
        r@ == display_name_of(*output),
{
    match &output.name {
        Some(name) => name.clone(),
        None => {
            let mut r = output.make.clone();
            r.append("+");
            r.append(output.model.as_str());
            proof {
                reveal_strlit("+");
            }
            r
        },
    }
}

pub open spec fn display_hits(outputs: Seq<OutputInfo>, display: Seq<char>) -> Seq<bool> {
    outputs.map_values(|o: OutputInfo| display_name_of(o) == display)
}

/// Position of the first output whose display name is `display`.
pub open spec fn output_for_display(s: AppData, display: Seq<char>) -> Option<int> {
    first_hit(display_hits(s.outputs@, display))
}

/// Finds the output with the display name `display`; returns its position
/// in `app_data.outputs`.
pub fn find(app_data: &AppData, display: &str) -> (r: Option<usize>)
    ensures
        r matches Some(i) ==> output_for_display(*app_data, display@) == Some(i as int),
        r is None ==> output_for_display(*app_data, display@) is None,
{
    let ghost hits = display_hits(app_data.outputs@, display@);
    let wanted = display.to_owned();
    let mut i: usize = 0;
    while i < app_data.outputs.len()
        invariant
            i <= app_data.outputs@.len(),
            wanted@ == display@,
            hits == display_hits(app_data.outputs@, display@),
            forall|j: int| 0 <= j < i ==> !hits[j],
        decreases app_data.outputs@.len() - i,
    {
        if display_name(&app_data.outputs[i]) == wanted {
            proof {
                lemma_first_hit_some(hits, i as int);
            }
            return Some(i);
        }
        i = i + 1;
    }
    proof {
        lemma_first_hit_none(hits);
    }
    None
}

/// Display names of the outputs among `ids` that the store knows, in order.
pub open spec fn known_display_names(s: AppData, ids: Seq<u64>) -> Seq<Seq<char>>
    decreases ids.len(),
{
    if ids.len() == 0 {
        Seq::empty()
    } else {
        let rest = known_display_names(s, ids.drop_last());
        match output_pos(s, ids.last()) {
            Some(p) => rest.push(display_name_of(s.outputs@[p])),
            None => rest,
        }
    }
}

/// The display names listed for an entity that is shown on the outputs `ids`.
pub fn display_names(app_data: &AppData, ids: &Vec<u64>) -> (r: Vec<String>)
    ensures
        r@.map_values(|n: String| n@) == known_display_names(*app_data, ids@),
{
    let mut r: Vec<String> = Vec::new();
    let mut i: usize = 0;
    while i < ids.len()
        invariant
            i <= ids@.len(),
            r@.map_values(|n: String| n@) == known_display_names(*app_data, ids@.take(i as int)),
        decreases ids@.len() - i,
    {
        proof {
            assert(ids@.take(i + 1).drop_last() =~= ids@.take(i as int));
        }
        if let Some(p) = app_data.find_output(ids[i]) {
            let name = display_name(&app_data.outputs[p]);
            r.push(name);
            assert(r@.map_values(|n: String| n@) =~= known_display_names(*app_data, ids@.take(i as int)).push(display_name_of(app_data.outputs@[p as int])));
        }
        i = i + 1;
    }
    assert(ids@.take(ids@.len() as int) =~= ids@);
    r
}


proof fn lemma_known_display_names_len(s: AppData, ids: Seq<u64>)
    ensures
        known_display_names(s, ids).len() <= ids.len(),
    decreases ids.len(),
{
    if ids.len() > 0 {
        lemma_known_display_names_len(s, ids.drop_last());
    }
}

/// Writes the inline list `Displays` of the outputs among `outputs` that the
/// store knows.
pub fn print_displays(app_data: &AppData, printer: &mut Printer, out: &mut String, outputs: &Vec<u64>)
    requires
        outputs@.len() < u32::MAX,
    ensures
        old(printer).advanced(*final(printer)),
        match *old(printer) {
            Printer::Human(p) => final(out)@ == old(out)@ + p.indent_view() + "Displays"@ + seq![':', ' ']
                + joined(known_display_names(*app_data, outputs@)) + seq!['\n'],
            Printer::Json(p) => final(out)@ == old(out)@ + comma_text(p.is_first()) + key_text("Displays"@) + seq!['[']
                + json_joined(known_display_names(*app_data, outputs@)) + seq![']'],
        },
{
    let names = display_names(app_data, outputs);
    proof {
        lemma_known_display_names_len(*app_data, outputs@);
        assert(views(names@) =~= known_display_names(*app_data, outputs@));
    }
    printer.inline_list(out, "Displays", &names);
}


/// The first mode flagged as current.
pub open spec fn current_mode_of(modes: Seq<Mode>) -> Option<Mode> {
    match first_hit(modes.map_values(|m: Mode| m.current)) {
        Some(i) => Some(modes[i]),
        None => None,
    }
}

pub fn current_mode(output: &OutputInfo) -> (r: Option<Mode>)
    ensures
        r == current_mode_of(output.modes@),
{
    let ghost hits = output.modes@.map_values(|m: Mode| m.current);
    let mut i: usize = 0;
    while i < output.modes.len()
        invariant
            i <= output.modes@.len(),
            hits == output.modes@.map_values(|m: Mode| m.current),
            forall|j: int| 0 <= j < i ==> !hits[j],
        decreases output.modes@.len() - i,
    {
        if output.modes[i].current {
            proof {
                lemma_first_hit_some(hits, i as int);
            }
            return Some(output.modes[i]);
        }
        i = i + 1;
    }
    proof {
        lemma_first_hit_none(hits);
    }
    None
}

} // verus!
