//! The outcome of one command: its status, its grid of fields, its messages,
//! and the request that has the native formatter print it.
//!
//! A `PgResult` holds what was read off the native result, as the bytes that
//! came back: every text is the bytes in front of the terminator, or absent
//! where the native side gave a null pointer. Decoding happens on access.

use crate::marshal::{as_raw, text_or_absent, text_or_empty};
use crate::marshal::{CText, FileTarget, MarshalError};
use crate::marshal::{has_nul, has_nul_char, marshals};
use crate::marshal::{inbound_field, inbound_message, inbound_text, raw_bytes};
use crate::status::ExecStatus;
use std::str::FromStr;
use vstd::prelude::*;
use vstd::string::StringSliceAdditionalSpecFns;

verus! {

/// A result, as contracts see it.
pub ghost struct ResultModel {
    pub status: ExecStatus,
    pub cmd_status: Option<Seq<u8>>,
    pub error_message: Option<Seq<u8>>,
    /// The diagnostic fields that are present, each under its code.
    pub error_fields: Seq<(u8, Seq<u8>)>,
    /// The rows, each a sequence of fields; `None` is a null field.
    pub rows: Seq<Seq<Option<Seq<u8>>>>,
}

/// The first entry of `fields` under `code`, if there is one.
pub open spec fn first_under(fields: Seq<(u8, Seq<u8>)>, code: u8) -> Option<Seq<u8>>
    decreases fields.len(),
{
    if fields.len() == 0 {
        None
    } else if fields[0].0 == code {
        Some(fields[0].1)
    } else {
        first_under(fields.drop_first(), code)
    }
}

impl ResultModel {
    /// The field at a row and column; a place outside the grid reads as a
    /// null field.
    pub open spec fn field_at(self, row: int, col: int) -> Option<Seq<u8>> {
        if 0 <= row < self.rows.len() && 0 <= col < self.rows[row].len() {
            self.rows[row][col]
        } else {
            None
        }
    }

    /// The diagnostic field under a code; absent where the result has none.
    pub open spec fn error_field(self, code: u8) -> Option<Seq<u8>> {
        first_under(self.error_fields, code)
    }
}

/// The options of the native formatter. Flags are 1 or 0, as it takes them.
/// Table options, caption and replacement field names are never set.
#[derive(Debug)]
pub struct PrintOptions {
    pub header: i8,
    pub align: i8,
    pub standard: i8,
    pub html3: i8,
    pub expanded: i8,
    pub pager: i8,
    pub field_sep: CText,
}

/// The options, as contracts see them.
pub ghost struct OptionsModel {
    pub header: i8,
    pub align: i8,
    pub standard: i8,
    pub html3: i8,
    pub expanded: i8,
    pub pager: i8,
    pub field_sep: Seq<u8>,
}

impl View for PrintOptions {
    type V = OptionsModel;

    open spec fn view(&self) -> OptionsModel {
        OptionsModel {
            header: self.header,
            align: self.align,
            standard: self.standard,
            html3: self.html3,
            expanded: self.expanded,
            pager: self.pager,
            field_sep: self.field_sep@,
        }
    }
}

/// One call of the native formatter: the file to write and the options.
#[derive(Debug)]
pub struct PrintRequest {
    pub target: FileTarget,
    pub options: PrintOptions,
}

/// A flag as the native formatter takes it.
pub open spec fn print_flag(on: bool) -> i8 {
    if on {
        1i8
    } else {
        0i8
    }
}

/// The options that a call of `print` asks for.
pub open spec fn options_for(
    header: bool,
    align: bool,
    fieldsep: Seq<u8>,
    standard: bool,
    html3: bool,
    expanded: bool,
    pager: bool,
) -> OptionsModel {
    OptionsModel {
        header: print_flag(header),
        align: print_flag(align),
        standard: print_flag(standard),
        html3: print_flag(html3),
        expanded: print_flag(expanded),
        pager: print_flag(pager),
        field_sep: fieldsep,
    }
}

/// The options of the rendering as one string: header on, columns aligned,
/// the one byte of `|` between fields, standard format, and nothing else.
pub open spec fn display_options() -> OptionsModel {
    options_for(true, true, seq![124u8], true, false, false, false)
}

/// The start of the name of the scratch file that a rendering goes through.
pub const SCRATCH_PREFIX: &'static str = "pg-res-";

/// The end of the name of the scratch file that a rendering goes through.
pub const SCRATCH_SUFFIX: &'static str = ".json";

/// The outcome of one command.
#[derive(Debug)]
pub struct PgResult {
    status: ExecStatus,
    cmd_status: Option<Vec<u8>>,
    error_message: Option<Vec<u8>>,
    error_fields: Vec<(u8, Vec<u8>)>,
    rows: Vec<Vec<Option<Vec<u8>>>>,
}

impl View for PgResult {
    type V = ResultModel;

    closed spec fn view(&self) -> ResultModel {
        ResultModel {
            status: self.status,
            cmd_status: self.cmd_status.deep_view(),
            error_message: self.error_message.deep_view(),
            error_fields: self.error_fields.deep_view(),
            rows: self.rows.deep_view(),
        }
    }
}

/// Calls `str::parse`, which goes to the `FromStr` of the target type, and
/// drops the error. Trusted, with nothing claimed of the result: what an
/// implementation of `FromStr` makes of a text is its own affair.
#[verifier::external_body]
fn parse_text<T: FromStr>(s: &str) -> (parsed: Option<T>) {
    s.parse::<T>().ok()
}

/// `value` is what the parse of `T` gave when it was handed `text`. Nothing
/// more is known of it: which texts a type parses from, and to what, is for
/// its `FromStr` to say.
pub closed spec fn parse_gave<T: FromStr>(text: Seq<char>, value: Option<T>) -> bool {
    exists|s: &str| s@ == text && call_ensures(parse_text::<T>, (s,), value)
}

impl PgResult {
    /// Puts together a result from what was read off the native side.
    pub fn new(
        status: ExecStatus,
        cmd_status: Option<Vec<u8>>,
        error_message: Option<Vec<u8>>,
        error_fields: Vec<(u8, Vec<u8>)>,
        rows: Vec<Vec<Option<Vec<u8>>>>,
    ) -> (r: PgResult)
        ensures
            r@ == (ResultModel {
                status,
                cmd_status: cmd_status.deep_view(),
                error_message: error_message.deep_view(),
                error_fields: error_fields.deep_view(),
                rows: rows.deep_view(),
            }),
    {
        PgResult { status, cmd_status, error_message, error_fields, rows }
    }

    /// The status of the command: always one of the named statuses.
    pub fn status(&self) -> (status: ExecStatus)
        ensures
            status == self@.status,
            ExecStatus::of_code(status.spec_code()) == Some(status),
    {
        self.status
    }

    /// The command status tag, such as `SELECT 1`; empty where the native
    /// side gave none.
    pub fn cmd_status(&mut self) -> (tag: String)
        ensures
            final(self)@ == old(self)@,
            tag@ == inbound_message(old(self)@.cmd_status),
    {
        text_or_empty(as_raw(&self.cmd_status))
    }

    /// The error message of the result; empty where there is none.
    pub fn error_message(&self) -> (message: String)
        ensures
            message@ == inbound_message(self@.error_message),
    {
        text_or_empty(as_raw(&self.error_message))
    }

    fn raw_error_field(&self, field_code: u8) -> (raw: Option<&[u8]>)
        ensures
            raw_bytes(raw) == self@.error_field(field_code),
    {
        let ghost all = self.error_fields.deep_view();
        let mut i: usize = 0;
        assert(all.skip(0) =~= all);
        while i < self.error_fields.len()
            invariant
                i <= self.error_fields.len(),
                all == self.error_fields.deep_view(),
                first_under(all, field_code) == first_under(all.skip(i as int), field_code),
            decreases self.error_fields.len() - i,
        {
            let ghost rest = all.skip(i as int);
            assert(rest.drop_first() =~= all.skip(i + 1));
            assert(rest[0] == all[i as int]);
            if self.error_fields[i].0 == field_code {
                let found = self.error_fields[i].1.as_slice();
                assert(self.error_fields[i as int].1.deep_view() =~= found@);
                return Some(found);
            }
            i += 1;
        }
        assert(all.skip(i as int).len() == 0);
        None
    }

    /// One diagnostic field of an error report, by its code; absent where
    /// the result carries no such field, as on every result that is no error.
    pub fn error_field(&self, field_code: u8) -> (field: Option<String>)
        ensures
            match field {
                None => self@.error_field(field_code) is None,
                Some(s) => inbound_field(self@.error_field(field_code)) == Some(s@),
            },
    {
        text_or_absent(self.raw_error_field(field_code))
    }

    fn raw_value(&self, row: i32, col: i32) -> (raw: Option<&[u8]>)
        ensures
            raw_bytes(raw) == self@.field_at(row as int, col as int),
    {
        if row < 0 || col < 0 {
            return None;
        }
        let r: usize = row as usize;
        let c: usize = col as usize;
        if r >= self.rows.len() {
            return None;
        }
        let fields = &self.rows[r];
        assert(self.rows.deep_view()[r as int] == fields.deep_view());
        if c >= fields.len() {
            return None;
        }
        assert(fields.deep_view()[c as int] == fields[c as int].deep_view());
        as_raw(&fields[c])
    }

    /// The field at a row and column, as text; empty for a null field.
    pub fn get_value_raw(&self, row: i32, col: i32) -> (value: String)
        ensures
            value@ == inbound_message(self@.field_at(row as int, col as int)),
    {
        text_or_empty(self.raw_value(row, col))
    }

    /// The field at a row and column, read by `parse`: absent for a null
    /// field; otherwise whatever `parse` makes of the field's text, absent
    /// included.
    pub fn get_value_with<T, F: Fn(&str) -> Option<T>>(&self, row: i32, col: i32, parse: F) -> (value:
        Option<T>)
        requires
            forall|s: &str| call_requires(parse, (s,)),
        ensures
            match self@.field_at(row as int, col as int) {
                None => value is None,
                Some(bytes) => exists|s: &str|
                    s@ == inbound_text(bytes) && call_ensures(parse, (s,), value),
            },
    {
        match text_or_absent(self.raw_value(row, col)) {
            None => None,
            Some(text) => {
                let s = text.as_str();
                let value = parse(s);
                assert(s@ == inbound_text(self@.field_at(row as int, col as int)->0)
                    && call_ensures(parse, (s,), value));
                value
            },
        }
    }

    /// The field at a row and column, parsed as a `T`: absent for a null
    /// field; otherwise what the parse of `T` gave for the field's decoded
    /// text, which is absent for text that `T` does not parse from.
    pub fn get_value<T: FromStr>(&self, row: i32, col: i32) -> (value: Option<T>)
        ensures
            match self@.field_at(row as int, col as int) {
                None => value is None,
                Some(bytes) => parse_gave::<T>(inbound_text(bytes), value),
            },
    {
        self.get_value_with(row, col, parse_text::<T>)
    }

    /// Prepares the printing of the result to a file. Both texts are
    /// marshalled, the separator first; a zero byte in either is the error.
    pub fn print(
        &self,
        filename: &str,
        header: bool,
        align: bool,
        fieldsep: &str,
        standard: bool,
        html3: bool,
        expanded: bool,
        pager: bool,
    ) -> (r: Result<PrintRequest, MarshalError>)
        ensures
            r is Ok <==> !has_nul_char(fieldsep@) && !has_nul_char(filename@),
            match r {
                Ok(request) => {
                    &&& !has_nul(fieldsep.spec_bytes())
                    &&& !has_nul(filename.spec_bytes())
                    &&& request.target.path@ == filename.spec_bytes()
                    &&& request.target.mode@ == seq![119u8]
                    &&& request.options@ == options_for(
                        header,
                        align,
                        fieldsep.spec_bytes(),
                        standard,
                        html3,
                        expanded,
                        pager,
                    )
                },
                Err(e) => if has_nul(fieldsep.spec_bytes()) {
                    marshals(fieldsep.spec_bytes(), Err(e))
                } else {
                    marshals(filename.spec_bytes(), Err(e))
                },
            },
    {
        let field_sep = match CText::new(fieldsep) {
            Ok(text) => text,
            Err(e) => {
                return Err(e);
            },
        };
        let target = match FileTarget::for_writing(filename) {
            Ok(target) => target,
            Err(e) => {
                return Err(e);
            },
        };
        Ok(
            PrintRequest {
                target,
                options: PrintOptions {
                    header: flag(header),
                    align: flag(align),
                    standard: flag(standard),
                    html3: flag(html3),
                    expanded: flag(expanded),
                    pager: flag(pager),
                    field_sep,
                },
            },
        )
    }

    /// Prepares the rendering of the result as one string: a print to the
    /// scratch file at `path` with the fixed options of `display_options`.
    /// The only error is a zero byte in the path.
    pub fn display_request(&self, path: &str) -> (r: Result<PrintRequest, MarshalError>)
        ensures
            r is Ok <==> !has_nul_char(path@),
            match r {
                Ok(request) => {
                    &&& !has_nul(path.spec_bytes())
                    &&& request.target.path@ == path.spec_bytes()
                    &&& request.target.mode@ == seq![119u8]
                    &&& request.options@ == display_options()
                },
                Err(e) => marshals(path.spec_bytes(), Err(e)),
            },
    {
        proof {
            lemma_bar_is_one_byte();
        }
        self.print(path, true, true, "|", true, false, false, false)
    }
}

fn flag(on: bool) -> (f: i8)
    ensures
        f == print_flag(on),
{
    if on {
        1
    } else {
        0
    }
}

/// The text `|` is one byte, and that byte is not zero.
proof fn lemma_bar_is_one_byte()
    ensures
        "|".spec_bytes() == seq![124u8],
        !has_nul_char("|"@),
{
    reveal_strlit("|");
    let s: &str = "|";
    assert(vstd::string::is_ascii(s));
    vstd::string::is_ascii_spec_bytes(s);
    assert(s.spec_bytes() =~= seq![124u8]);
}

/// The rendering as one string and a print with header, alignment, `|` and
/// standard format hand the native formatter the same options, whatever the
/// two files are.
pub proof fn lemma_display_is_the_aligned_print()
    ensures
        display_options() == options_for(true, true, "|".spec_bytes(), true, false, false, false),
{
    lemma_bar_is_one_byte();
}

} // verus!
