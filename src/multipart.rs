//! Fields of a `multipart/form-data` body, and the handler that collects the
//! parts of such a body as a parser reports them.
use std::path::PathBuf;
use std::str::Utf8Error;
use vstd::prelude::*;

verus! {

#[verifier::external_type_specification]
#[verifier::external_body]
pub struct ExPathBuf(PathBuf);

#[verifier::external_type_specification]
#[verifier::external_body]
pub struct ExUtf8Error(Utf8Error);

/// The text that bytes encode in UTF-8, or `None` when they are not UTF-8.
pub uninterp spec fn utf8_text_of(b: Seq<u8>) -> Option<Seq<char>>;

/// Relies on `std::str::from_utf8`: whether the bytes are UTF-8, and the text
/// they encode, depend on the bytes alone.
#[verifier::external_body]
fn utf8_text(b: &[u8]) -> (r: Result<&str, Utf8Error>)
    ensures
        match r {
            Ok(s) => utf8_text_of(b@) == Some(s@),
            Err(_) => utf8_text_of(b@) is None,
        },
{
    std::str::from_utf8(b)
}

/// Relies on `Utf8Error`'s `Display`, which says where the bytes stop being
/// UTF-8.
#[verifier::external_body]
fn utf8_error_text(e: &Utf8Error) -> String {
    format!("{}", e)
}

/// An error met while reading a multipart body.
#[derive(Debug)]
pub struct MultipartError {
    /// What went wrong.
    pub message: String,
}

impl MultipartError {
    pub fn new(message: &str) -> (r: MultipartError)
        ensures
            r.message@ == message@,
    {
        MultipartError { message: String::from_str(message) }
    }

    /// The error for bytes that are not UTF-8.
    pub fn from(e: Utf8Error) -> (r: MultipartError) {
        MultipartError { message: utf8_error_text(&e) }
    }

    /// What went wrong.
    pub fn description(&self) -> (r: &str)
        ensures
            r@ == self.message@,
    {
        self.message.as_str()
    }
}

/// One field of a body sent as `multipart/form-data`.
pub enum FormData {
    /// A part whose Content-Disposition is not a file.
    Field {
        /// The field name.
        field_name: String,
        /// The field content, unparsed.
        content: Vec<u8>,
    },
    /// A part whose Content-Disposition is a file.
    File {
        /// The field name.
        field_name: String,
        /// The name of the file.
        file_name: String,
        /// The MIME type of the file, when the part gives one.
        content_type: Option<String>,
        /// Where the file was stored on the server.
        file_path: PathBuf,
    },
}

impl FormData {
    pub open spec fn name_view(&self) -> Seq<char> {
        match self {
            FormData::Field { field_name, .. } => field_name@,
            FormData::File { field_name, .. } => field_name@,
        }
    }

    /// The field name.
    pub fn field_name(&self) -> (r: &String)
        ensures
            r@ == self.name_view(),
    {
        match self {
            FormData::Field { field_name, .. } => field_name,
            FormData::File { field_name, .. } => field_name,
        }
    }
}

/// The fields of `fields` whose name is `name`, in order.
pub open spec fn fields_named(fields: Seq<FormData>, name: Seq<char>) -> Seq<FormData> {
    fields.filter(|f: FormData| f.name_view() == name)
}

/// The fields parsed from a multipart body, in body order.
pub struct MultipartData {
    fields: Vec<FormData>,
}

impl Default for MultipartData {
    fn default() -> (r: MultipartData)
        ensures
            r.fields().len() == 0,
    {
        MultipartData { fields: Vec::new() }
    }
}

impl MultipartData {
    pub closed spec fn fields(&self) -> Seq<FormData> {
        self.fields@
    }

    /// Adds a field after the others.
    pub fn push(&mut self, field: FormData)
        ensures
            final(self).fields() == old(self).fields().push(field),
    {
        self.fields.push(field);
    }

    /// The positions of the fields named `name`, in order.
    pub fn get_fields_iter(&self, name: &str) -> (r: Vec<usize>)
        ensures
            r@.map_values(|i: usize| self.fields()[i as int]) == fields_named(
                self.fields(),
                name@,
            ),
            forall|j: int| 0 <= j < r@.len() ==> r@[j] < self.fields().len(),
            forall|j: int, k: int| 0 <= j < k < r@.len() ==> r@[j] < r@[k],
    {
        let target = String::from_str(name);
        let mut found: Vec<usize> = Vec::new();
        let mut i: usize = 0;
        while i < self.fields.len()
            invariant
                i <= self.fields@.len(),
                target@ == name@,
                found@.map_values(|i: usize| self.fields@[i as int]) == fields_named(
                    self.fields@.subrange(0, i as int),
                    name@,
                ),
                forall|j: int| 0 <= j < found@.len() ==> found@[j] < i,
                forall|j: int, k: int| 0 <= j < k < found@.len() ==> found@[j] < found@[k],
            decreases self.fields@.len() - i,
        {
            let ghost before = found@;
            let ghost prefix = self.fields@.subrange(0, i as int);
            let ghost next = self.fields@.subrange(0, i + 1 as int);
            proof {
                reveal(Seq::filter);
                assert(next.drop_last() =~= prefix);
                assert(next.last() == self.fields@[i as int]);
            }
            if self.fields[i].field_name().eq(&target) {
                found.push(i);
                proof {
                    assert(found@.map_values(|i: usize| self.fields@[i as int]) =~= before.map_values(
                        |i: usize| self.fields@[i as int],
                    ).push(self.fields@[i as int]));
                }
            } else {
                proof {
                    assert(found@ == before);
                }
            }
            i += 1;
        }
        proof {
            assert(self.fields@.subrange(0, i as int) =~= self.fields@);
        }
        found
    }

    /// The fields named `name`, in order.
    pub fn get_fields(&self, name: &str) -> (r: Vec<&FormData>)
        ensures
            r@.map_values(|f: &FormData| *f) == fields_named(self.fields(), name@),
    {
        let positions = self.get_fields_iter(name);
        let mut out: Vec<&FormData> = Vec::new();
        let mut j: usize = 0;
        while j < positions.len()
            invariant
                j <= positions@.len(),
                forall|k: int| 0 <= k < positions@.len() ==> positions@[k] < self.fields@.len(),
                out@.map_values(|f: &FormData| *f) == positions@.subrange(0, j as int).map_values(
                    |i: usize| self.fields@[i as int],
                ),
            decreases positions@.len() - j,
        {
            out.push(&self.fields[positions[j]]);
            proof {
                assert(positions@.subrange(0, j + 1 as int).map_values(
                    |i: usize| self.fields@[i as int],
                ) =~= positions@.subrange(0, j as int).map_values(
                    |i: usize| self.fields@[i as int],
                ).push(self.fields@[positions@[j as int] as int]));
                assert(out@.map_values(|f: &FormData| *f) =~= positions@.subrange(
                    0,
                    j + 1 as int,
                ).map_values(|i: usize| self.fields@[i as int]));
            }
            j += 1;
        }
        proof {
            assert(positions@.subrange(0, j as int) =~= positions@);
        }
        out
    }

    /// The first field named `name`.
    pub fn get_field(&self, name: &str) -> (r: Option<&FormData>)
        ensures
            fields_named(self.fields(), name@).len() == 0 ==> r is None,
            fields_named(self.fields(), name@).len() > 0 ==> r == Some(
                &fields_named(self.fields(), name@)[0],
            ),
    {
        let positions = self.get_fields_iter(name);
        if positions.len() == 0 {
            None
        } else {
            proof {
                assert(positions@.map_values(|i: usize| self.fields@[i as int])[0] == self.fields@[positions@[0] as int]);
            }
            Some(&self.fields[positions[0]])
        }
    }
}

/// Where the parser last reported something, as far as the handler cares.
#[derive(Clone, Copy, Debug, PartialEq, Eq, Structural)]
pub enum ParseState {
    /// Nothing reported yet.
    Idle,
    /// Bytes of a header name.
    HeaderName,
    /// Bytes of a header value.
    HeaderValue,
}

/// A header is text when it lacks a name or a value, or when both are UTF-8.
pub open spec fn header_is_text(name: Seq<u8>, value: Seq<u8>) -> bool {
    name.len() == 0 || value.len() == 0 || (utf8_text_of(name) is Some && utf8_text_of(
        value,
    ) is Some)
}

/// The name and value buffers after a header is ended: emptied when the
/// header is text, kept when it is not.
pub open spec fn flushed(name: Seq<u8>, value: Seq<u8>) -> (Seq<u8>, Seq<u8>) {
    if header_is_text(name, value) {
        (Seq::empty(), Seq::empty())
    } else {
        (name, value)
    }
}

/// Bytes appended after `a`.
fn append_bytes(a: &mut Vec<u8>, b: &[u8])
    ensures
        final(a)@ == old(a)@ + b@,
{
    let mut i: usize = 0;
    while i < b.len()
        invariant
            i <= b@.len(),
            a@ == old(a)@ + b@.subrange(0, i as int),
        decreases b@.len() - i,
    {
        a.push(b[i]);
        proof {
            assert(b@.subrange(0, i + 1 as int) =~= b@.subrange(0, i as int).push(b@[i as int]));
        }
        i += 1;
    }
    proof {
        assert(b@.subrange(0, i as int) =~= b@);
    }
}

/// Collects the parts of a multipart body as a parser reports them: header
/// names and values are buffered until a header is complete, and the data of
/// the first part is kept.
pub struct MultipartHandler {
    error: Option<MultipartError>,
    count: usize,
    data: Vec<u8>,
    curr_formdata: Option<FormData>,
    /// The fields collected so far.
    pub multipart_data: MultipartData,
    name_buf: Vec<u8>,
    state: ParseState,
    value_buf: Vec<u8>,
}

impl Default for MultipartHandler {
    fn default() -> (r: MultipartHandler)
        ensures
            r.parts() == 0,
            r.data() == Seq::<u8>::empty(),
            r.name_buf() == Seq::<u8>::empty(),
            r.value_buf() == Seq::<u8>::empty(),
            r.state() == ParseState::Idle,
            r.collected().len() == 0,
    {
        MultipartHandler {
            error: None,
            count: 0,
            data: Vec::new(),
            curr_formdata: None,
            multipart_data: MultipartData::default(),
            name_buf: Vec::new(),
            state: ParseState::Idle,
            value_buf: Vec::new(),
        }
    }
}

impl MultipartHandler {
    /// How many parts have begun.
    pub closed spec fn parts(&self) -> nat {
        self.count as nat
    }

    /// The data of the parts read so far.
    pub closed spec fn data(&self) -> Seq<u8> {
        self.data@
    }

    /// The bytes of the header name being read.
    pub closed spec fn name_buf(&self) -> Seq<u8> {
        self.name_buf@
    }

    /// The bytes of the header value being read.
    pub closed spec fn value_buf(&self) -> Seq<u8> {
        self.value_buf@
    }

    pub closed spec fn state(&self) -> ParseState {
        self.state
    }

    /// The fields collected so far.
    pub closed spec fn collected(&self) -> Seq<FormData> {
        self.multipart_data.fields()
    }

    /// How many parts have begun.
    pub fn part_count(&self) -> (r: usize)
        ensures
            r == self.parts(),
    {
        self.count
    }

    /// The data of the parts read so far.
    pub fn body(&self) -> (r: &Vec<u8>)
        ensures
            r@ == self.data(),
    {
        &self.data
    }

    /// Ends the header being read. A header with both a name and a value must
    /// be UTF-8 in both; when it is, or when either is empty, the buffers are
    /// cleared, and when it is not, the error says so and the buffers stay.
    pub fn flush_header(&mut self) -> (r: Result<(), MultipartError>)
        ensures
            r is Ok <==> header_is_text(old(self).name_buf(), old(self).value_buf()),
            final(self).name_buf() == flushed(old(self).name_buf(), old(self).value_buf()).0,
            final(self).value_buf() == flushed(old(self).name_buf(), old(self).value_buf()).1,
            final(self).parts() == old(self).parts(),
            final(self).data() == old(self).data(),
            final(self).state() == old(self).state(),
            final(self).collected() == old(self).collected(),
    {
        if self.name_buf.len() > 0 && self.value_buf.len() > 0 {
            if let Err(e) = utf8_text(self.name_buf.as_slice()) {
                return Err(MultipartError::from(e));
            }
            if let Err(e) = utf8_text(self.value_buf.as_slice()) {
                return Err(MultipartError::from(e));
            }
        }
        self.name_buf = Vec::new();
        self.value_buf = Vec::new();
        Ok(())
    }

    /// Bytes of a header name. A name that follows a value starts a new
    /// header, so the one before is ended first. Parsing goes on.
    pub fn on_header_name(&mut self, name: &[u8]) -> (r: bool)
        ensures
            r,
            final(self).state() == ParseState::HeaderName,
            old(self).state() != ParseState::HeaderValue ==> final(self).name_buf() == old(
                self,
            ).name_buf() + name@ && final(self).value_buf() == old(self).value_buf(),
            old(self).state() == ParseState::HeaderValue ==> final(self).name_buf() == flushed(
                old(self).name_buf(),
                old(self).value_buf(),
            ).0 + name@ && final(self).value_buf() == flushed(
                old(self).name_buf(),
                old(self).value_buf(),
            ).1,
            final(self).parts() == old(self).parts(),
            final(self).data() == old(self).data(),
            final(self).collected() == old(self).collected(),
    {
        if self.state == ParseState::HeaderValue {
            let _ = self.flush_header();
        }
        append_bytes(&mut self.name_buf, name);
        self.state = ParseState::HeaderName;
        true
    }

    /// Bytes of a header value. Parsing goes on.
    pub fn on_header_value(&mut self, value: &[u8]) -> (r: bool)
        ensures
            r,
            final(self).state() == ParseState::HeaderValue,
            final(self).value_buf() == old(self).value_buf() + value@,
            final(self).name_buf() == old(self).name_buf(),
            final(self).parts() == old(self).parts(),
            final(self).data() == old(self).data(),
            final(self).collected() == old(self).collected(),
    {
        append_bytes(&mut self.value_buf, value);
        self.state = ParseState::HeaderValue;
        true
    }

    /// The headers of a part are complete: the last one is ended. Parsing
    /// goes on.
    pub fn on_headers_finished(&mut self) -> (r: bool)
        ensures
            r,
            final(self).name_buf() == flushed(old(self).name_buf(), old(self).value_buf()).0,
            final(self).value_buf() == flushed(old(self).name_buf(), old(self).value_buf()).1,
            final(self).state() == old(self).state(),
            final(self).parts() == old(self).parts(),
            final(self).data() == old(self).data(),
            final(self).collected() == old(self).collected(),
    {
        let _ = self.flush_header();
        true
    }

    /// A part begins. Parsing goes on through the first part and stops when
    /// a second one begins.
    pub fn on_multipart_begin(&mut self) -> (r: bool)
        requires
            old(self).parts() < usize::MAX,
        ensures
            final(self).parts() == old(self).parts() + 1,
            r == (final(self).parts() <= 1),
            final(self).data() == old(self).data(),
            final(self).state() == old(self).state(),
            final(self).name_buf() == old(self).name_buf(),
            final(self).value_buf() == old(self).value_buf(),
            final(self).collected() == old(self).collected(),
    {
        self.count += 1;
        self.count <= 1
    }

    /// Data of the current part. Parsing goes on.
    pub fn on_multipart_data(&mut self, data: &[u8]) -> (r: bool)
        ensures
            r,
            final(self).data() == old(self).data() + data@,
            final(self).parts() == old(self).parts(),
            final(self).state() == old(self).state(),
            final(self).name_buf() == old(self).name_buf(),
            final(self).value_buf() == old(self).value_buf(),
            final(self).collected() == old(self).collected(),
    {
        append_bytes(&mut self.data, data);
        true
    }
}

} // verus!
