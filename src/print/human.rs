use vstd::prelude::*;

use super::{ListOptions, PrintError};

verus! {

/// One level of indentation.
pub const INDENT: &'static str = "  ";

pub open spec fn indent_text() -> Seq<char> {
    seq![' ', ' ']
}

pub open spec fn digit_char(d: nat) -> char {
    if d == 0 { '0' } else if d == 1 { '1' } else if d == 2 { '2' } else if d == 3 { '3' } else if d == 4 { '4' }
    else if d == 5 { '5' } else if d == 6 { '6' } else if d == 7 { '7' } else if d == 8 { '8' } else { '9' }
}

/// The decimal digits of `n`.
pub open spec fn decimal(n: nat) -> Seq<char>
    decreases n,
{
    if n < 10 {
        seq![digit_char(n)]
    } else {
        decimal(n / 10).push(digit_char(n % 10))
    }
}

fn digit_str(d: u32) -> (r: &'static str)
    requires
        d < 10,
    ensures
        r@ == seq![digit_char(d as nat)],
{
    proof {
        reveal_strlit("0");
        reveal_strlit("1");
        reveal_strlit("2");
        reveal_strlit("3");
        reveal_strlit("4");
        reveal_strlit("5");
        reveal_strlit("6");
        reveal_strlit("7");
        reveal_strlit("8");
        reveal_strlit("9");
    }
    if d == 0 { "0" } else if d == 1 { "1" } else if d == 2 { "2" } else if d == 3 { "3" } else if d == 4 { "4" }
    else if d == 5 { "5" } else if d == 6 { "6" } else if d == 7 { "7" } else if d == 8 { "8" } else { "9" }
}

/// Appends the decimal digits of `n`.
pub fn push_decimal(out: &mut String, n: u32)
    ensures
        final(out)@ == old(out)@ + decimal(n as nat),
    decreases n,
{
    if n < 10 {
        out.append(digit_str(n));
    } else {
        push_decimal(out, n / 10);
        out.append(digit_str(n % 10));
        assert(final(out)@ =~= old(out)@ + decimal(n as nat));
    }
}

/// Prints a struct as `name: value` lines.
#[derive(Debug)]
pub struct Printer {
    end_with_nl: bool,
    indent: String,
}

/// Prints a list as numbered lines, or inline separated by commas.
#[derive(Debug)]
pub struct ListPrinter {
    counter: u32,
    end_with_nl: bool,
    indent: String,
    options: ListOptions,
}

impl Printer {
    pub closed spec fn indent_view(&self) -> Seq<char> {
        self.indent@
    }

    pub closed spec fn ends_with_newline(&self) -> bool {
        self.end_with_nl
    }

    /// A top-level printer: no indentation, nothing owed at the end.
    pub fn new() -> (r: Printer)
        ensures
            r.indent_view().len() == 0,
            !r.ends_with_newline(),
    {
        Printer { end_with_nl: false, indent: String::new() }
    }

    /// Writes the newline still owed, once.
    pub fn save_drop(&mut self, out: &mut String)
        ensures
            final(out)@ == old(out)@ + (if old(self).ends_with_newline() { seq!['\n'] } else { Seq::empty() }),
            !final(self).ends_with_newline(),
            final(self).indent_view() == old(self).indent_view(),
    {
        if self.end_with_nl {
            self.end_with_nl = false;
            out.append("\n");
            proof {
                reveal_strlit("\n");
            }
        }
    }

    /// Writes `name: value` on a line of its own.
    pub fn field(&self, out: &mut String, name: &str, value: &str)
        ensures
            final(out)@ == old(out)@ + self.indent_view() + name@ + seq![':', ' '] + value@ + seq!['\n'],
    {
        out.append(self.indent.as_str());
        out.append(name);
        out.append(": ");
        out.append(value);
        out.append("\n");
        proof {
            reveal_strlit(": ");
            reveal_strlit("\n");
        }
    }

    /// Writes the heading `name` and returns a printer for the nested
    /// struct, one level deeper.
    pub fn sub_struct(&self, out: &mut String, name: &str) -> (r: Printer)
        ensures
            final(out)@ == old(out)@ + self.indent_view() + name@ + seq!['\n'],
            r.indent_view() == indent_text() + self.indent_view(),
            r.ends_with_newline(),
    {
        out.append(self.indent.as_str());
        out.append(name);
        out.append("\n");
        let mut indent = String::new();
        indent.append(INDENT);
        indent.append(self.indent.as_str());
        proof {
            reveal_strlit("\n");
            reveal_strlit("  ");
        }
        Printer { end_with_nl: true, indent }
    }

    /// Writes the heading of a list and returns a printer for its items.
    pub fn sub_list_with(&self, out: &mut String, name: &str, options: ListOptions) -> (r: ListPrinter)
        ensures
            final(out)@ == old(out)@ + self.indent_view() + name@ + (if options.inline {
                seq![':', ' ']
            } else {
                seq![':', '\n']
            }),
            r.indent_view() == indent_text() + self.indent_view(),
            r.count() == 0,
            r.ends_with_newline(),
            r.options() == options,
    {
        out.append(self.indent.as_str());
        out.append(name);
        if options.inline {
            out.append(": ");
        } else {
            out.append(":\n");
        }
        proof {
            reveal_strlit(": ");
            reveal_strlit(":\n");
        }
        let mut indent = String::new();
        indent.append(INDENT);
        indent.append(self.indent.as_str());
        proof {
            reveal_strlit("  ");
        }
        ListPrinter::new(indent, options)
    }
}

impl ListPrinter {
    pub closed spec fn indent_view(&self) -> Seq<char> {
        self.indent@
    }

    pub closed spec fn count(&self) -> u32 {
        self.counter
    }

    pub closed spec fn ends_with_newline(&self) -> bool {
        self.end_with_nl
    }

    pub closed spec fn options(&self) -> ListOptions {
        self.options
    }

    pub fn new(indent: String, options: ListOptions) -> (r: ListPrinter)
        ensures
            r.indent_view() == indent@,
            r.count() == 0,
            r.ends_with_newline(),
            r.options() == options,
    {
        ListPrinter { counter: 0, end_with_nl: true, indent, options }
    }

    /// Writes the newline still owed, once.
    pub fn save_drop(&mut self, out: &mut String)
        ensures
            final(out)@ == old(out)@ + (if old(self).ends_with_newline() { seq!['\n'] } else { Seq::empty() }),
            !final(self).ends_with_newline(),
            final(self).count() == old(self).count(),
            final(self).indent_view() == old(self).indent_view(),
            final(self).options() == old(self).options(),
    {
        if self.end_with_nl {
            self.end_with_nl = false;
            out.append("\n");
            proof {
                reveal_strlit("\n");
            }
        }
    }

    /// Writes one item: inline after a comma (but the first), else on a
    /// numbered line.
    pub fn item(&mut self, out: &mut String, value: &str)
        requires
            old(self).count() < u32::MAX,
        ensures
            final(self).count() == old(self).count() + 1,
            final(self).indent_view() == old(self).indent_view(),
            final(self).ends_with_newline() == old(self).ends_with_newline(),
            final(self).options() == old(self).options(),
            final(out)@ == old(out)@ + (if old(self).options().inline {
                (if old(self).count() >= 1 { seq![',', ' '] } else { Seq::empty() }) + value@
            } else {
                old(self).indent_view() + decimal((old(self).count() + 1) as nat) + seq![':', ' '] + value@ + seq!['\n']
            }),
    {
        self.counter = self.counter + 1;
        if self.options.inline {
            if self.counter > 1 {
                out.append(", ");
            }
            out.append(value);
            proof {
                reveal_strlit(", ");
            }
        } else {
            out.append(self.indent.as_str());
            push_decimal(out, self.counter);
            out.append(": ");
            out.append(value);
            out.append("\n");
            proof {
                reveal_strlit(": ");
                reveal_strlit("\n");
            }
        }
    }

    /// Writes the number of the next item and returns a printer for the
    /// struct that is that item. An inline list refuses.
    pub fn sub_struct(&mut self, out: &mut String) -> (r: Result<Printer, PrintError>)
        requires
            old(self).count() < u32::MAX,
        ensures
            old(self).options().inline ==> r == Err::<Printer, PrintError>(PrintError::InlineStruct)
                && final(out)@ == old(out)@ && *final(self) == *old(self),
            !old(self).options().inline ==> r is Ok && ({
                let p = r->Ok_0;
                &&& final(out)@ == old(out)@ + old(self).indent_view() + decimal((old(self).count() + 1) as nat) + seq![':', '\n']
                &&& final(self).count() == old(self).count() + 1
                &&& final(self).indent_view() == old(self).indent_view()
                &&& final(self).ends_with_newline() == old(self).ends_with_newline()
                &&& final(self).options() == old(self).options()
                &&& p.indent_view() == old(self).indent_view()
                &&& p.ends_with_newline()
            }),
    {
        if self.options.inline {
            return Err(PrintError::InlineStruct);
        }
        self.counter = self.counter + 1;
        out.append(self.indent.as_str());
        push_decimal(out, self.counter);
        out.append(":\n");
        proof {
            reveal_strlit(":\n");
        }
        Ok(Printer { end_with_nl: true, indent: self.indent.clone() })
    }

    /// Writes the number of the next item (for a list that is not inline)
    /// and returns a printer for the list that is that item. An inline list
    /// refuses.
    pub fn sub_list_with(&mut self, out: &mut String, options: ListOptions) -> (r: Result<ListPrinter, PrintError>)
        requires
            old(self).count() < u32::MAX,
        ensures
            old(self).options().inline ==> r == Err::<ListPrinter, PrintError>(PrintError::InlineList)
                && final(out)@ == old(out)@ && *final(self) == *old(self),
            !old(self).options().inline ==> r is Ok && ({
                let p = r->Ok_0;
                &&& final(out)@ == old(out)@ + (if options.inline {
                    Seq::empty()
                } else {
                    old(self).indent_view() + decimal((old(self).count() + 1) as nat) + seq![':', '\n']
                })
                &&& final(self).count() == old(self).count() + 1
                &&& final(self).indent_view() == old(self).indent_view()
                &&& final(self).ends_with_newline() == old(self).ends_with_newline()
                &&& final(self).options() == old(self).options()
                &&& p.indent_view() == indent_text() + old(self).indent_view()
                &&& p.count() == 0
                &&& p.ends_with_newline()
                &&& p.options() == options
            }),
    {
        if self.options.inline {
            return Err(PrintError::InlineList);
        }
        self.counter = self.counter + 1;
        if !options.inline {
            out.append(self.indent.as_str());
            push_decimal(out, self.counter);
            out.append(":\n");
            proof {
                reveal_strlit(":\n");
            }
        }
        let mut indent = String::new();
        indent.append(INDENT);
        indent.append(self.indent.as_str());
        proof {
            reveal_strlit("  ");
        }
        Ok(ListPrinter::new(indent, options))
    }
}

} // verus!
