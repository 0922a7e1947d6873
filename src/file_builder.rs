//! The operations that every backend offers to the driver that walks the
//! constants.
use vstd::prelude::*;

verus! {

/// The characters of an optional string.
pub open spec fn opt_chars(o: Option<&str>) -> Option<Seq<char>> {
    match o {
        Some(s) => Some(s@),
        None => None,
    }
}

/// An optional count as a natural number.
pub open spec fn opt_nat(o: Option<usize>) -> Option<nat> {
    match o {
        Some(n) => Some(n as nat),
        None => None,
    }
}

/// A renderer of one target language.
///
/// The driver calls [`FileBuilder::write_top_level`] once, then for each
/// namespace [`FileBuilder::write_namespace`], its constants and nested
/// namespaces, and a matching [`FileBuilder::write_closure`]. Each write appends
/// to an output buffer that the driver owns; its text is given by a spec
/// function of the backend and of the call's arguments alone, and no write
/// changes the backend.
pub trait FileBuilder: Sized {
    /// The filename suffix of the generated file.
    spec fn spec_extension(&self) -> Seq<char>;

    /// The preamble of the file.
    spec fn top_level_text(&self) -> Seq<char>;

    /// The text that opens the scope `name`, with an optional inline comment.
    spec fn namespace_text(&self, name: Seq<char>, comment: Option<Seq<char>>) -> Seq<char>;

    /// The declaration of the constant `name` of value `value`, with an optional
    /// inline comment and an optional indentation in spaces.
    spec fn variable_text(
        &self,
        name: Seq<char>,
        value: nat,
        comment: Option<Seq<char>>,
        indentation: Option<nat>,
    ) -> Seq<char>;

    /// The text that closes a scope; `eof` marks the last one of the file.
    spec fn closure_text(&self, eof: bool) -> Seq<char>;

    fn extension(&mut self) -> (r: &str)
        ensures
            r@ == old(self).spec_extension(),
            *final(self) == *old(self),
    ;

    fn write_top_level(&mut self, output: &mut String)
        ensures
            final(output)@ == old(output)@ + old(self).top_level_text(),
            *final(self) == *old(self),
    ;

    fn write_namespace(&mut self, output: &mut String, name: &str, comment: Option<&str>)
        ensures
            final(output)@ == old(output)@ + old(self).namespace_text(name@, opt_chars(comment)),
            *final(self) == *old(self),
    ;

    fn write_variable(
        &mut self,
        output: &mut String,
        name: &str,
        value: usize,
        comment: Option<&str>,
        indentation: Option<usize>,
    )
        ensures
            final(output)@ == old(output)@ + old(self).variable_text(
                name@,
                value as nat,
                opt_chars(comment),
                opt_nat(indentation),
            ),
            *final(self) == *old(self),
    ;

    fn write_closure(&mut self, output: &mut String, eof: bool)
        ensures
            final(output)@ == old(output)@ + old(self).closure_text(eof),
            *final(self) == *old(self),
    ;
}

} // verus!
