//! A small harness for table-driven decode tests: it holds a name, a
//! test directory and a serialized document, and decodes the document
//! on demand.

use crate::content::Content;
use crate::errors::DeserializationErrors;
use crate::json::{from_str, parsed_text};
use crate::model::acc;
use crate::path::Segment;
use crate::render::push_char;
use crate::schema::Schema;
use vstd::prelude::*;
use vstd::string::{StrSliceExecFns, StringExecFns};

verus! {

/// Holds one named, serialized test document.
pub struct TestHelper<T> {
    /// The helper's name.
    pub name: String,
    /// The directory the test lives in.
    pub test_dir: String,
    /// The serialized document under test.
    pub value_serialized: String,
    /// Carrier of the target type.
    pub marker: core::marker::PhantomData<T>,
}

/// A name with every `/` replaced by `__`, so it can serve as a file
/// name.
pub open spec fn spec_flat_name(s: Seq<char>) -> Seq<char>
    decreases s.len(),
{
    if s.len() == 0 {
        Seq::<char>::empty()
    } else {
        spec_flat_name(s.drop_last()) + (if s.last() == '/' {
            seq!['_', '_']
        } else {
            seq![s.last()]
        })
    }
}

impl<T> TestHelper<T> {
    /// A helper that holds the passed serialized document under the
    /// given name and test directory.
    pub fn new_serialized(name: String, test_dir: String, value_serialized: String) -> (r:
        TestHelper<T>)
        ensures
            r.name@ == name@,
            r.test_dir@ == test_dir@,
            r.value_serialized@ == value_serialized@,
    {
        TestHelper { name, test_dir, value_serialized, marker: core::marker::PhantomData }
    }

    /// Decodes the held document against the given schema.
    pub fn from_json(&self, schema: &Schema) -> (r: Result<Content, DeserializationErrors>)
        ensures
            match parsed_text(self.value_serialized@) {
                Err(m) => (r matches Err(es) && es@.len() == 1),
                Ok(v) => ({
                    let a = acc(*schema, v, Seq::<Segment>::empty());
                    &&& (a.0.len() == 0 ==> (r matches Ok(w) && w == v))
                    &&& (a.0.len() > 0 ==> (r matches Err(es) && es@ == a.0))
                }),
            },
    {
        from_str(self.value_serialized.as_str(), schema)
    }

    /// The helper's name.
    pub fn name(&self) -> (r: &str)
        ensures
            r@ == self.name@,
    {
        self.name.as_str()
    }

    /// The helper's test directory.
    pub fn test_dir(&self) -> (r: &str)
        ensures
            r@ == self.test_dir@,
    {
        self.test_dir.as_str()
    }

    /// The held serialized document.
    pub fn serialized(&self) -> (r: &str)
        ensures
            r@ == self.value_serialized@,
    {
        self.value_serialized.as_str()
    }

    /// Where the serialized document would persist: the test
    /// directory's `serialized` folder, the flattened name, the
    /// extension.
    pub fn cache_file_path(test_dir: &str, name: &str, ext: &str) -> (r: String)
        ensures
            r@ == test_dir@ + "/serialized/"@ + spec_flat_name(name@) + seq!['.'] + ext@,
    {
        let mut out = test_dir.to_owned();
        out.append("/serialized/");
        let n = name.unicode_len();
        let mut i: usize = 0;
        while i < n
            invariant
                i <= n,
                n == name@.len(),
                out@ == test_dir@ + "/serialized/"@ + spec_flat_name(name@.subrange(0, i as int)),
            decreases n - i,
        {
            let ghost prefix = name@.subrange(0, i as int);
            let c = name.get_char(i);
            if c == '/' {
                push_char(&mut out, '_');
                push_char(&mut out, '_');
            } else {
                push_char(&mut out, c);
            }
            proof {
                let next = name@.subrange(0, (i + 1) as int);
                assert(next.drop_last() =~= prefix);
                assert(next.last() == name@[i as int]);
                assert(out@ =~= test_dir@ + "/serialized/"@ + spec_flat_name(next));
            }
            i = i + 1;
        }
        proof {
            assert(name@.subrange(0, name@.len() as int) =~= name@);
        }
        push_char(&mut out, '.');
        out.append(ext);
        assert(out@ =~= test_dir@ + "/serialized/"@ + spec_flat_name(name@) + seq!['.'] + ext@);
        out
    }
}

} // verus!
