use vstd::prelude::*;

verus! {

/// Prints a struct as a JSON object whose values are all strings.
#[derive(Debug)]
pub struct Printer {
    first: bool,
    dropped: bool,
}

/// Prints a list as a JSON array.
#[derive(Debug)]
pub struct ListPrinter {
    first: bool,
    dropped: bool,
}

/// `"name":`
pub open spec fn key_text(name: Seq<char>) -> Seq<char> {
    seq!['"'] + name + seq!['"', ':']
}

/// `"value"`
pub open spec fn quoted(value: Seq<char>) -> Seq<char> {
    seq!['"'] + value + seq!['"']
}

pub open spec fn comma_text(first: bool) -> Seq<char> {
    if first {
        Seq::empty()
    } else {
        seq![',']
    }
}

impl Printer {
    pub closed spec fn is_first(&self) -> bool {
        self.first
    }

    pub closed spec fn is_closed(&self) -> bool {
        self.dropped
    }

    /// Opens an object.
    pub fn new(out: &mut String) -> (r: Printer)
        ensures
            final(out)@ == old(out)@ + seq!['{'],
            r.is_first(),
            !r.is_closed(),
    {
        out.append("{");
        proof {
            reveal_strlit("{");
        }
        Printer { first: true, dropped: false }
    }

    /// Writes a comma unless this is the first member.
    fn comma(&mut self, out: &mut String)
        ensures
            final(out)@ == old(out)@ + comma_text(old(self).is_first()),
            !final(self).is_first(),
            final(self).is_closed() == old(self).is_closed(),
    {
        if !self.first {
            out.append(",");
            proof {
                reveal_strlit(",");
            }
        }
        self.first = false;
    }

    /// Writes the key of the next member.
    fn key(&mut self, out: &mut String, name: &str)
        ensures
            final(out)@ == old(out)@ + comma_text(old(self).is_first()) + key_text(name@),
            !final(self).is_first(),
            final(self).is_closed() == old(self).is_closed(),
    {
        self.comma(out);
        out.append("\"");
        out.append(name);
        out.append("\":");
        proof {
            reveal_strlit("\"");
            reveal_strlit("\":");
        }
    }

    /// Closes the object, once.
    pub fn save_drop(&mut self, out: &mut String)
        ensures
            final(out)@ == old(out)@ + (if old(self).is_closed() { Seq::empty() } else { seq!['}'] }),
            final(self).is_closed(),
            final(self).is_first() == old(self).is_first(),
    {
        if !self.dropped {
            self.dropped = true;
            out.append("}");
            proof {
                reveal_strlit("}");
            }
        }
    }

    /// Writes the member `"name":"value"`.
    pub fn field(&mut self, out: &mut String, name: &str, value: &str)
        ensures
            final(out)@ == old(out)@ + comma_text(old(self).is_first()) + key_text(name@) + quoted(value@),
            !final(self).is_first(),
            final(self).is_closed() == old(self).is_closed(),
    {
        self.key(out, name);
        out.append("\"");
        out.append(value);
        out.append("\"");
        proof {
            reveal_strlit("\"");
        }
    }

    /// Writes the key `name` and opens a nested object.
    pub fn sub_struct(&mut self, out: &mut String, name: &str) -> (r: Printer)
        ensures
            final(out)@ == old(out)@ + comma_text(old(self).is_first()) + key_text(name@) + seq!['{'],
            !final(self).is_first(),
            final(self).is_closed() == old(self).is_closed(),
            r.is_first(),
            !r.is_closed(),
    {
        self.key(out, name);
        Printer::new(out)
    }

    /// Writes the key `name` and opens a nested array.
    pub fn sub_list_with(&mut self, out: &mut String, name: &str) -> (r: ListPrinter)
        ensures
            final(out)@ == old(out)@ + comma_text(old(self).is_first()) + key_text(name@) + seq!['['],
            !final(self).is_first(),
            final(self).is_closed() == old(self).is_closed(),
            r.is_first(),
            !r.is_closed(),
    {
        self.key(out, name);
        ListPrinter::new(out)
    }
}

impl ListPrinter {
    pub closed spec fn is_first(&self) -> bool {
        self.first
    }

    pub closed spec fn is_closed(&self) -> bool {
        self.dropped
    }

    /// Opens an array.
    pub fn new(out: &mut String) -> (r: ListPrinter)
        ensures
            final(out)@ == old(out)@ + seq!['['],
            r.is_first(),
            !r.is_closed(),
    {
        out.append("[");
        proof {
            reveal_strlit("[");
        }
        ListPrinter { first: true, dropped: false }
    }

    /// Writes a comma unless this is the first element.
    fn comma(&mut self, out: &mut String)
        ensures
            final(out)@ == old(out)@ + comma_text(old(self).is_first()),
            !final(self).is_first(),
            final(self).is_closed() == old(self).is_closed(),
    {
        if !self.first {
            out.append(",");
            proof {
                reveal_strlit(",");
            }
        }
        self.first = false;
    }

    /// Closes the array, once.
    pub fn save_drop(&mut self, out: &mut String)
        ensures
            final(out)@ == old(out)@ + (if old(self).is_closed() { Seq::empty() } else { seq![']'] }),
            final(self).is_closed(),
            final(self).is_first() == old(self).is_first(),
    {
        if !self.dropped {
            self.dropped = true;
            out.append("]");
            proof {
                reveal_strlit("]");
            }
        }
    }

    /// Writes the element `"value"`.
    pub fn item(&mut self, out: &mut String, value: &str)
        ensures
            final(out)@ == old(out)@ + comma_text(old(self).is_first()) + quoted(value@),
            !final(self).is_first(),
            final(self).is_closed() == old(self).is_closed(),
    {
        self.comma(out);
        out.append("\"");
        out.append(value);
        out.append("\"");
        proof {
            reveal_strlit("\"");
        }
    }

    /// Opens an object as the next element.
    pub fn sub_struct(&mut self, out: &mut String) -> (r: Printer)
        ensures
            final(out)@ == old(out)@ + comma_text(old(self).is_first()) + seq!['{'],
            !final(self).is_first(),
            final(self).is_closed() == old(self).is_closed(),
            r.is_first(),
            !r.is_closed(),
    {
        self.comma(out);
        Printer::new(out)
    }

    /// Opens an array as the next element.
    pub fn sub_list_with(&mut self, out: &mut String) -> (r: ListPrinter)
        ensures
            final(out)@ == old(out)@ + comma_text(old(self).is_first()) + seq!['['],
            !final(self).is_first(),
            final(self).is_closed() == old(self).is_closed(),
            r.is_first(),
            !r.is_closed(),
    {
        self.comma(out);
        ListPrinter::new(out)
    }
}

} // verus!
