//! A whole execution request in native form.

use vstd::prelude::*;
use vstd::slice::slice_to_vec;
use vstd::string::StringSliceAdditionalSpecFns;
use crate::marshal::{has_nul, is_first_nul, native_form, NativeText};

verus! {

/// Number of text fields in a request.
pub const REQUEST_FIELDS: usize = 6;

/// A field of a request held a terminator byte.
#[derive(Clone, Debug)]
pub struct NulError {
    /// Which field: 0 script, 1 configuration, 2 keys, 3 data, 4 extra, 5 context.
    pub field: usize,
    /// Index of the first terminator byte in that field.
    pub position: usize,
    /// The field's bytes.
    pub bytes: Vec<u8>,
}

/// The six request fields, as bytes, in the order the engine takes them.
pub open spec fn request_bytes(
    script: &str,
    conf: &str,
    keys: &str,
    data: &str,
    extra: &str,
    context: &str,
) -> Seq<Seq<u8>> {
    seq![
        script.spec_bytes(),
        conf.spec_bytes(),
        keys.spec_bytes(),
        data.spec_bytes(),
        extra.spec_bytes(),
        context.spec_bytes(),
    ]
}

/// No field holds a terminator byte.
pub open spec fn all_clean(f: Seq<Seq<u8>>) -> bool {
    forall|k: int| 0 <= k < f.len() ==> !has_nul(#[trigger] f[k])
}

/// `e` reports the first field of `f` that holds a terminator byte.
pub open spec fn reports_first_nul(f: Seq<Seq<u8>>, e: NulError) -> bool {
    &&& 0 <= e.field < f.len()
    &&& forall|j: int| 0 <= j < e.field ==> !has_nul(#[trigger] f[j])
    &&& is_first_nul(f[e.field as int], e.position as int)
    &&& e.bytes@ == f[e.field as int]
}

/// The six fields of a request, each in native form.
pub struct NativeRequest {
    pub script: NativeText,
    pub conf: NativeText,
    pub keys: NativeText,
    pub data: NativeText,
    pub extra: NativeText,
    pub context: NativeText,
}

impl View for NativeRequest {
    type V = Seq<Seq<u8>>;

    open spec fn view(&self) -> Seq<Seq<u8>> {
        seq![self.script@, self.conf@, self.keys@, self.data@, self.extra@, self.context@]
    }
}

impl NativeRequest {
    pub open spec fn wf(&self) -> bool {
        &&& self.script.wf()
        &&& self.conf.wf()
        &&& self.keys.wf()
        &&& self.data.wf()
        &&& self.extra.wf()
        &&& self.context.wf()
    }

    /// Marshals every field, in order. The first field that holds a
    /// terminator byte rejects the whole request.
    pub fn new(
        script: &str,
        conf: &str,
        keys: &str,
        data: &str,
        extra: &str,
        context: &str,
    ) -> (r: Result<NativeRequest, NulError>)
        ensures
            r is Ok <==> all_clean(request_bytes(script, conf, keys, data, extra, context)),
            r matches Ok(q) ==> q.wf() && q@.len() == REQUEST_FIELDS && forall|k: int|
                0 <= k < REQUEST_FIELDS ==> #[trigger] q@[k] == native_form(
                    request_bytes(script, conf, keys, data, extra, context)[k],
                ),
            r matches Err(e) ==> reports_first_nul(
                request_bytes(script, conf, keys, data, extra, context),
                e,
            ),
    {
        let ghost f = request_bytes(script, conf, keys, data, extra, context);
        let script = match marshal_field(script, 0) {
            Ok(t) => t,
            Err(e) => return Err(e),
        };
        let conf = match marshal_field(conf, 1) {
            Ok(t) => t,
            Err(e) => return Err(e),
        };
        let keys = match marshal_field(keys, 2) {
            Ok(t) => t,
            Err(e) => return Err(e),
        };
        let data = match marshal_field(data, 3) {
            Ok(t) => t,
            Err(e) => return Err(e),
        };
        let extra = match marshal_field(extra, 4) {
            Ok(t) => t,
            Err(e) => return Err(e),
        };
        let context = match marshal_field(context, 5) {
            Ok(t) => t,
            Err(e) => return Err(e),
        };
        let q = NativeRequest { script, conf, keys, data, extra, context };
        assert(all_clean(f)) by {
            assert forall|k: int| 0 <= k < f.len() implies !has_nul(#[trigger] f[k]) by {
                assert(0 <= k < 6);
            }
        }
        Ok(q)
    }
}

/// Marshals one field, reporting a terminator byte against the field's index.
fn marshal_field(text: &str, field: usize) -> (r: Result<NativeText, NulError>)
    ensures
        r is Ok <==> !has_nul(text.spec_bytes()),
        r matches Ok(n) ==> n.wf() && n@ == native_form(text.spec_bytes()),
        r matches Err(e) ==> e.field == field && is_first_nul(text.spec_bytes(), e.position as int)
            && e.bytes@ == text.spec_bytes(),
{
    match NativeText::new(text) {
        Ok(n) => Ok(n),
        Err(position) => Err(NulError { field, position, bytes: slice_to_vec(text.as_bytes()) }),
    }
}

} // verus!
