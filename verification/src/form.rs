//! Encoding text fields as a `multipart/form-data` body, by way of
//! ureq_multipart's builder. The builder picks a random boundary of digits;
//! everything else about the body follows from the fields.
use ureq_multipart::MultipartBuilder;
use vstd::prelude::*;
use vstd::utf8::encode_utf8;

verus! {

#[verifier::external_type_specification]
#[verifier::external_body]
pub struct ExMultipartBuilder(MultipartBuilder);

#[verifier::external_type_specification]
#[verifier::external_body]
pub struct ExIoError(std::io::Error);

/// The bytes that a form builder holds so far.
pub uninterp spec fn form_body(form: MultipartBuilder) -> Seq<u8>;

/// The boundary that a form builder was made with.
pub uninterp spec fn form_boundary(form: MultipartBuilder) -> Seq<char>;

/// A boundary as the builder draws them: twenty-nine decimal digits.
pub open spec fn is_form_boundary(boundary: Seq<char>) -> bool {
    &&& boundary.len() == 29
    &&& forall|i: int| 0 <= i < boundary.len() ==> '0' <= #[trigger] boundary[i] <= '9'
}

/// The line break that separates a delimiter from the part before it;
/// nothing before the first delimiter.
pub open spec fn break_unless_first(first: bool) -> Seq<char> {
    if first {
        Seq::empty()
    } else {
        "\r\n"@
    }
}

/// What adding a text field writes: the delimiter line (twenty-nine dashes
/// and the boundary), the header that names the field, an empty line, and
/// the field's text.
pub open spec fn form_field_text(first: bool, boundary: Seq<char>, name: Seq<char>, text: Seq<char>) -> Seq<char> {
    break_unless_first(first) + "-----------------------------"@ + boundary + "\r\n"@
        + "Content-Disposition: form-data; name=\""@ + name + "\""@ + "\r\n\r\n"@ + text
}

/// What finishing a form writes: the closing delimiter.
pub open spec fn form_closing_text(first: bool, boundary: Seq<char>) -> Seq<char> {
    break_unless_first(first) + "-----------------------------"@ + boundary + "--\r\n"@
}

/// The content type of a form with this boundary.
pub open spec fn form_content_type(boundary: Seq<char>) -> Seq<char> {
    "multipart/form-data; boundary=---------------------------"@ + boundary
}

/// The parts of the fields, in their order.
pub open spec fn form_fields_text(fields: Seq<(Seq<char>, Seq<char>)>, boundary: Seq<char>) -> Seq<char>
    decreases fields.len(),
{
    if fields.len() == 0 {
        Seq::empty()
    } else {
        form_fields_text(fields.drop_last(), boundary) + form_field_text(
            fields.len() == 1,
            boundary,
            fields.last().0,
            fields.last().1,
        )
    }
}

/// The whole text of a form with these fields: their parts, then the
/// closing delimiter.
pub open spec fn form_text(fields: Seq<(Seq<char>, Seq<char>)>, boundary: Seq<char>) -> Seq<char> {
    form_fields_text(fields, boundary) + form_closing_text(fields.len() == 0, boundary)
}

/// Fields by their names' and texts' characters.
pub open spec fn fields_view(v: Seq<(String, String)>) -> Seq<(Seq<char>, Seq<char>)> {
    v.map_values(|f: (String, String)| (f.0@, f.1@))
}

/// `MultipartBuilder::new`: an empty builder, with a boundary of
/// twenty-nine digits drawn at random.
#[verifier::external_body]
fn form_new() -> (form: MultipartBuilder)
    ensures
        form_body(form).len() == 0,
        is_form_boundary(form_boundary(form)),
{
    MultipartBuilder::new()
}

/// `MultipartBuilder::add_text`: it succeeds, since it only writes into
/// the builder's `Vec<u8>`, which cannot fail; the builder keeps its
/// boundary and has the field's part appended, UTF-8 encoded, with a line
/// break before it unless the builder was empty.
#[verifier::external_body]
fn form_add_text(form: MultipartBuilder, name: &str, text: &str) -> (r: Result<MultipartBuilder, std::io::Error>)
    ensures
        r is Ok,
        r matches Ok(next) ==> form_boundary(next) == form_boundary(form) && form_body(next)
            == form_body(form) + encode_utf8(
            form_field_text(form_body(form).len() == 0, form_boundary(form), name@, text@),
        ),
{
    form.add_text(name, text)
}

/// `MultipartBuilder::finish`: it succeeds, since it only writes into the
/// builder's `Vec<u8>`; it gives the content type that names the builder's
/// boundary, and the builder's bytes followed by the closing delimiter.
#[verifier::external_body]
fn form_finish(form: MultipartBuilder) -> (r: Result<(String, Vec<u8>), std::io::Error>)
    ensures
        r is Ok,
        r matches Ok((content_type, data)) ==> content_type@ == form_content_type(
            form_boundary(form),
        ) && data@ == form_body(form) + encode_utf8(
            form_closing_text(form_body(form).len() == 0, form_boundary(form)),
        ),
{
    form.finish()
}

/// A form ready to be posted: its content type and its body.
pub struct EncodedForm {
    pub content_type: String,
    pub data: Vec<u8>,
}

/// Writing the form into memory failed (which the builder never does).
#[derive(Debug)]
pub enum FormError {
    Write,
}

proof fn lemma_encode_utf8_concat(a: Seq<char>, b: Seq<char>)
    ensures
        encode_utf8(a + b) == encode_utf8(a) + encode_utf8(b),
    decreases a.len(),
{
    if a.len() == 0 {
        assert(a + b =~= b);
        assert(encode_utf8(a) + encode_utf8(b) =~= encode_utf8(b));
    } else {
        lemma_encode_utf8_concat(a.drop_first(), b);
        assert((a + b).drop_first() =~= a.drop_first() + b);
        assert((a + b)[0] == a[0]);
        let head = vstd::utf8::encode_scalar(a[0] as u32);
        assert(head + (encode_utf8(a.drop_first()) + encode_utf8(b)) =~= (head + encode_utf8(
            a.drop_first(),
        )) + encode_utf8(b));
    }
}

proof fn lemma_encode_utf8_nonempty(s: Seq<char>)
    requires
        s.len() > 0,
    ensures
        encode_utf8(s).len() > 0,
{
    let head = vstd::utf8::encode_scalar(s[0] as u32);
    assert(head.len() > 0);
}

/// The `multipart/form-data` encoding of `fields`, in their order, with
/// the boundary that the builder drew.
pub fn encode_form(fields: &Vec<(String, String)>) -> (r: Result<EncodedForm, FormError>)
    ensures
        r is Ok,
        r matches Ok(form) ==> exists|boundary: Seq<char>|
            #[trigger] is_form_boundary(boundary) && form.content_type@ == form_content_type(
                boundary,
            ) && form.data@ == encode_utf8(form_text(fields_view(fields@), boundary)),
{
    let ghost all = fields_view(fields@);
    let mut form = form_new();
    let ghost boundary = form_boundary(form);
    let mut i: usize = 0;
    while i < fields.len()
        invariant
            i <= fields.len(),
            all == fields_view(fields@),
            form_boundary(form) == boundary,
            is_form_boundary(boundary),
            form_body(form) == encode_utf8(form_fields_text(all.take(i as int), boundary)),
            (form_body(form).len() == 0) == (i == 0),
        decreases fields.len() - i,
    {
        let field = &fields[i];
        let ghost before = form_body(form);
        let ghost part = form_field_text(i == 0, boundary, field.0@, field.1@);
        form = match form_add_text(form, field.0.as_str(), field.1.as_str()) {
            Ok(next) => next,
            Err(_) => {
                return Err(FormError::Write);
            },
        };
        proof {
            assert(all.take(i + 1).drop_last() =~= all.take(i as int));
            assert(all.take(i + 1).last() == (field.0@, field.1@));
            lemma_encode_utf8_concat(form_fields_text(all.take(i as int), boundary), part);
            reveal_strlit("-----------------------------");
            lemma_encode_utf8_nonempty(part);
        }
        i = i + 1;
    }
    match form_finish(form) {
        Ok((content_type, data)) => {
            proof {
                assert(all.take(i as int) =~= all);
                lemma_encode_utf8_concat(
                    form_fields_text(all, boundary),
                    form_closing_text(all.len() == 0, boundary),
                );
            }
            Ok(EncodedForm { content_type, data })
        },
        Err(_) => Err(FormError::Write),
    }
}

} // verus!
