pub mod human;
pub mod json;

use vstd::prelude::*;

use self::json::{comma_text, key_text, quoted};

verus! {

/// How a list is laid out by the human printer.
#[derive(Clone, Copy, Debug, PartialEq, Eq, Structural)]
pub struct ListOptions {
    /// All items on one line, separated by commas.
    pub inline: bool,
}

impl Default for ListOptions {
    fn default() -> (r: ListOptions)
        ensures
            r == (ListOptions { inline: false }),
    {
        ListOptions { inline: false }
    }
}

/// Why a printer refused a request.
#[derive(Clone, Copy, Debug, PartialEq, Eq, Structural)]
pub enum PrintError {
    /// An inline list cannot hold a struct.
    InlineStruct,
    /// An inline list cannot hold a list.
    InlineList,
}


/// A printer for a struct, in one of the two formats.
#[derive(Debug)]
pub enum Printer {
    Human(human::Printer),
    Json(json::Printer),
}

/// A printer for a list, in one of the two formats.
#[derive(Debug)]
pub enum ListPrinter {
    Human(human::ListPrinter),
    Json(json::ListPrinter),
}

/// A top-level human-readable printer.
pub fn human() -> (r: Printer)
    ensures
        r matches Printer::Human(p) && p.indent_view().len() == 0 && !p.ends_with_newline(),
{
    Printer::Human(human::Printer::new())
}

/// A top-level JSON printer; opens the outermost object in `out`.
pub fn json(out: &mut String) -> (r: Printer)
    ensures
        final(out)@ == old(out)@ + seq!['{'],
        r matches Printer::Json(p) && p.is_first() && !p.is_closed(),
{
    Printer::Json(json::Printer::new(out))
}

/// The items joined by `, `, as an inline human list shows them.
pub open spec fn joined(items: Seq<Seq<char>>) -> Seq<char>
    decreases items.len(),
{
    if items.len() == 0 {
        Seq::empty()
    } else if items.len() == 1 {
        items[0]
    } else {
        joined(items.drop_last()) + seq![',', ' '] + items.last()
    }
}

/// The items as JSON strings joined by `,`.
pub open spec fn json_joined(items: Seq<Seq<char>>) -> Seq<char>
    decreases items.len(),
{
    if items.len() == 0 {
        Seq::empty()
    } else {
        json_joined(items.drop_last()) + comma_text(items.len() == 1) + quoted(items.last())
    }
}

pub open spec fn views(items: Seq<String>) -> Seq<Seq<char>> {
    items.map_values(|s: String| s@)
}

impl Printer {
    /// The text a field adds, and whether the printer is then past its
    /// first member.
    pub open spec fn field_text(&self, name: Seq<char>, value: Seq<char>) -> Seq<char> {
        match *self {
            Printer::Human(p) => p.indent_view() + name + seq![':', ' '] + value + seq!['\n'],
            Printer::Json(p) => comma_text(p.is_first()) + key_text(name) + quoted(value),
        }
    }

    /// The printer after one more member.
    pub open spec fn advanced(&self, next: Printer) -> bool {
        match (*self, next) {
            (Printer::Human(p), Printer::Human(q)) => q.indent_view() == p.indent_view() && q.ends_with_newline() == p.ends_with_newline(),
            (Printer::Json(p), Printer::Json(q)) => !q.is_first() && q.is_closed() == p.is_closed(),
            _ => false,
        }
    }

    pub fn field(&mut self, out: &mut String, name: &str, value: &str)
        ensures
            final(out)@ == old(out)@ + old(self).field_text(name@, value@),
            old(self).advanced(*final(self)),
    {
        match self {
            Printer::Human(p) => p.field(out, name, value),
            Printer::Json(p) => p.field(out, name, value),
        }
    }

    /// A field that is written only when there is a value.
    pub fn optional(&mut self, out: &mut String, name: &str, value: Option<&str>)
        ensures
            match value {
                Some(v) => final(out)@ == old(out)@ + old(self).field_text(name@, v@) && old(self).advanced(*final(self)),
                None => final(out)@ == old(out)@ && *final(self) == *old(self),
            },
    {
        if let Some(v) = value {
            self.field(out, name, v);
        }
    }

    /// Opens a nested struct under `name`.
    pub fn sub_struct(&mut self, out: &mut String, name: &str) -> (r: Printer)
        ensures
            old(self).advanced(*final(self)),
            match (*old(self), r) {
                (Printer::Human(p), Printer::Human(q)) => final(out)@ == old(out)@ + p.indent_view() + name@ + seq!['\n']
                    && q.indent_view() == human::indent_text() + p.indent_view() && q.ends_with_newline(),
                (Printer::Json(p), Printer::Json(q)) => final(out)@ == old(out)@ + comma_text(p.is_first()) + key_text(name@) + seq!['{']
                    && q.is_first() && !q.is_closed(),
                _ => false,
            },
    {
        match self {
            Printer::Human(p) => Printer::Human(p.sub_struct(out, name)),
            Printer::Json(p) => Printer::Json(p.sub_struct(out, name)),
        }
    }

    /// Opens a nested list under `name`.
    pub fn sub_list_with(&mut self, out: &mut String, name: &str, options: ListOptions) -> (r: ListPrinter)
        ensures
            old(self).advanced(*final(self)),
            match (*old(self), r) {
                (Printer::Human(p), ListPrinter::Human(q)) => final(out)@ == old(out)@ + p.indent_view() + name@
                    + (if options.inline { seq![':', ' '] } else { seq![':', '\n'] })
                    && q.indent_view() == human::indent_text() + p.indent_view() && q.count() == 0
                    && q.ends_with_newline() && q.options() == options,
                (Printer::Json(p), ListPrinter::Json(q)) => final(out)@ == old(out)@ + comma_text(p.is_first()) + key_text(name@) + seq!['[']
                    && q.is_first() && !q.is_closed(),
                _ => false,
            },
    {
        match self {
            Printer::Human(p) => ListPrinter::Human(p.sub_list_with(out, name, options)),
            Printer::Json(p) => ListPrinter::Json(p.sub_list_with(out, name)),
        }
    }

    /// Writes what the printer still owes at its end.
    pub fn save_drop(&mut self, out: &mut String)
        ensures
            match (*old(self), *final(self)) {
                (Printer::Human(p), Printer::Human(q)) => final(out)@ == old(out)@ + (if p.ends_with_newline() { seq!['\n'] } else { Seq::empty() })
                    && !q.ends_with_newline() && q.indent_view() == p.indent_view(),
                (Printer::Json(p), Printer::Json(q)) => final(out)@ == old(out)@ + (if p.is_closed() { Seq::empty() } else { seq!['}'] })
                    && q.is_closed() && q.is_first() == p.is_first(),
                _ => false,
            },
    {
        match self {
            Printer::Human(p) => p.save_drop(out),
            Printer::Json(p) => p.save_drop(out),
        }
    }

    /// A list of `items` under `name`, on one line in the human format.
    pub fn inline_list(&mut self, out: &mut String, name: &str, items: &Vec<String>)
        requires
            items@.len() < u32::MAX,
        ensures
            old(self).advanced(*final(self)),
            match *old(self) {
                Printer::Human(p) => final(out)@ == old(out)@ + p.indent_view() + name@ + seq![':', ' '] + joined(views(items@)) + seq!['\n'],
                Printer::Json(p) => final(out)@ == old(out)@ + comma_text(p.is_first()) + key_text(name@) + seq!['['] + json_joined(views(items@)) + seq![']'],
            },
    {
        let ghost start = out@;
        let mut list = self.sub_list_with(out, name, ListOptions { inline: true });
        let ghost head = out@;
        let mut i: usize = 0;
        while i < items.len()
            invariant
                i <= items@.len(),
                items@.len() < u32::MAX,
                match list {
                    ListPrinter::Human(q) => q.count() == i && q.ends_with_newline() && q.options().inline
                        && out@ == head + joined(views(items@.take(i as int))),
                    ListPrinter::Json(q) => q.is_first() == (i == 0) && !q.is_closed()
                        && out@ == head + json_joined(views(items@.take(i as int))),
                },
                match *old(self) {
                    Printer::Human(_) => list is Human,
                    Printer::Json(_) => list is Json,
                },
            decreases items@.len() - i,
        {
            proof {
                assert(views(items@.take(i + 1)).drop_last() =~= views(items@.take(i as int)));
                assert(views(items@.take(i + 1)).last() == items@[i as int]@);
            }
            list.item(out, items[i].as_str());
            i = i + 1;
        }
        assert(items@.take(i as int) =~= items@);
        list.save_drop(out);
    }
}

impl ListPrinter {
    pub fn item(&mut self, out: &mut String, value: &str)
        requires
            *old(self) matches ListPrinter::Human(p) ==> p.count() < u32::MAX,
        ensures
            match (*old(self), *final(self)) {
                (ListPrinter::Human(p), ListPrinter::Human(q)) => q.count() == p.count() + 1
                    && q.indent_view() == p.indent_view() && q.ends_with_newline() == p.ends_with_newline()
                    && q.options() == p.options()
                    && final(out)@ == old(out)@ + (if p.options().inline {
                        (if p.count() >= 1 { seq![',', ' '] } else { Seq::empty() }) + value@
                    } else {
                        p.indent_view() + human::decimal((p.count() + 1) as nat) + seq![':', ' '] + value@ + seq!['\n']
                    }),
                (ListPrinter::Json(p), ListPrinter::Json(q)) => !q.is_first() && q.is_closed() == p.is_closed()
                    && final(out)@ == old(out)@ + comma_text(p.is_first()) + quoted(value@),
                _ => false,
            },
    {
        match self {
            ListPrinter::Human(p) => p.item(out, value),
            ListPrinter::Json(p) => p.item(out, value),
        }
    }

    /// Writes what the printer still owes at its end.
    pub fn save_drop(&mut self, out: &mut String)
        ensures
            match (*old(self), *final(self)) {
                (ListPrinter::Human(p), ListPrinter::Human(q)) => final(out)@ == old(out)@ + (if p.ends_with_newline() { seq!['\n'] } else { Seq::empty() })
                    && !q.ends_with_newline(),
                (ListPrinter::Json(p), ListPrinter::Json(q)) => final(out)@ == old(out)@ + (if p.is_closed() { Seq::empty() } else { seq![']'] })
                    && q.is_closed(),
                _ => false,
            },
    {
        match self {
            ListPrinter::Human(p) => p.save_drop(out),
            ListPrinter::Json(p) => p.save_drop(out),
        }
    }

    /// Opens a struct as the next item; an inline human list refuses.
    pub fn sub_struct(&mut self, out: &mut String) -> (r: Result<Printer, PrintError>)
        requires
            *old(self) matches ListPrinter::Human(p) ==> p.count() < u32::MAX,
        ensures
            match *old(self) {
                ListPrinter::Human(p) => if p.options().inline {
                    r == Err::<Printer, PrintError>(PrintError::InlineStruct) && final(out)@ == old(out)@
                } else {
                    r matches Ok(Printer::Human(q)) && q.indent_view() == p.indent_view() && q.ends_with_newline()
                        && final(out)@ == old(out)@ + p.indent_view() + human::decimal((p.count() + 1) as nat) + seq![':', '\n']
                },
                ListPrinter::Json(p) => r matches Ok(Printer::Json(q)) && q.is_first() && !q.is_closed()
                    && final(out)@ == old(out)@ + comma_text(p.is_first()) + seq!['{'],
            },
    {
        match self {
            ListPrinter::Human(p) => match p.sub_struct(out) {
                Ok(q) => Ok(Printer::Human(q)),
                Err(e) => Err(e),
            },
            ListPrinter::Json(p) => Ok(Printer::Json(p.sub_struct(out))),
        }
    }

    /// Opens a list as the next item; an inline human list refuses.
    pub fn sub_list_with(&mut self, out: &mut String, options: ListOptions) -> (r: Result<ListPrinter, PrintError>)
        requires
            *old(self) matches ListPrinter::Human(p) ==> p.count() < u32::MAX,
        ensures
            match *old(self) {
                ListPrinter::Human(p) => if p.options().inline {
                    r == Err::<ListPrinter, PrintError>(PrintError::InlineList) && final(out)@ == old(out)@
                } else {
                    r matches Ok(ListPrinter::Human(q)) && q.count() == 0 && q.options() == options
                        && q.indent_view() == human::indent_text() + p.indent_view()
                        && final(out)@ == old(out)@ + (if options.inline {
                            Seq::empty()
                        } else {
                            p.indent_view() + human::decimal((p.count() + 1) as nat) + seq![':', '\n']
                        })
                },
                ListPrinter::Json(p) => r matches Ok(ListPrinter::Json(q)) && q.is_first() && !q.is_closed()
                    && final(out)@ == old(out)@ + comma_text(p.is_first()) + seq!['['],
            },
    {
        match self {
            ListPrinter::Human(p) => match p.sub_list_with(out, options) {
                Ok(q) => Ok(ListPrinter::Human(q)),
                Err(e) => Err(e),
            },
            ListPrinter::Json(p) => Ok(ListPrinter::Json(p.sub_list_with(out))),
        }
    }
}

} // verus!
