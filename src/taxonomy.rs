//! The taxonomy table: per-variant declarations, checked once when the table
//! is built, and turned into descriptors on demand.
use vstd::prelude::*;

use crate::app_code::AppCode;
use crate::error_info::{describes, ErrorInfo};

verus! {

/// What one variant of an error enum declares: its name, its short code, its
/// application code as text, and its client message (empty when none).
#[derive(Clone, Debug)]
pub struct VariantSpec {
    pub name: String,
    pub code: String,
    pub app_code: String,
    pub client_msg: String,
}

pub ghost struct VariantModel {
    pub name: Seq<char>,
    pub code: Seq<char>,
    pub app_code: Seq<char>,
    pub client_msg: Seq<char>,
}

impl View for VariantSpec {
    type V = VariantModel;

    open spec fn view(&self) -> VariantModel {
        VariantModel {
            name: self.name@,
            code: self.code@,
            app_code: self.app_code@,
            client_msg: self.client_msg@,
        }
    }
}

pub ghost struct TaxonomyModel {
    pub prefix: Seq<char>,
    pub variants: Seq<VariantModel>,
}

pub open spec fn full_code(prefix: Seq<char>, code: Seq<char>) -> Seq<char> {
    prefix + code
}

pub open spec fn names_of(variants: Seq<VariantModel>) -> Seq<Seq<char>> {
    variants.map_values(|v: VariantModel| v.name)
}

pub open spec fn codes_of(prefix: Seq<char>, variants: Seq<VariantModel>) -> Seq<Seq<char>> {
    variants.map_values(|v: VariantModel| full_code(prefix, v.code))
}

pub open spec fn has_duplicate(s: Seq<Seq<char>>) -> bool {
    exists|i: int, j: int| 0 <= i < j < s.len() && s[i] == s[j]
}

/// `(i, j)` is the first repeat in `s`: `j` is the least index whose item
/// occurs earlier, and `i` the first place where it does.
pub open spec fn is_first_duplicate(s: Seq<Seq<char>>, i: int, j: int) -> bool {
    &&& 0 <= i < j < s.len()
    &&& s[i] == s[j]
    &&& forall|a: int, b: int| 0 <= a < b < j ==> s[a] != s[b]
    &&& forall|a: int| 0 <= a < i ==> s[a] != s[j]
}

/// Variant names are distinct, and so are full codes.
pub open spec fn taxonomy_ok(prefix: Seq<char>, variants: Seq<VariantModel>) -> bool {
    &&& !has_duplicate(names_of(variants))
    &&& !has_duplicate(codes_of(prefix, variants))
}

/// Every variant of an accepted table maps to exactly one entry: for a
/// declared name there is one position that declares it, and no other.
pub proof fn lemma_each_variant_has_one_entry(
    prefix: Seq<char>,
    variants: Seq<VariantModel>,
    name: Seq<char>,
)
    requires
        taxonomy_ok(prefix, variants),
        names_of(variants).contains(name),
    ensures
        exists|i: int|
            {
                &&& 0 <= i < variants.len()
                &&& #[trigger] variants[i].name == name
                &&& forall|j: int| 0 <= j < variants.len() && variants[j].name == name ==> j == i
            },
{
    let i = choose|i: int| 0 <= i < names_of(variants).len() && names_of(variants)[i] == name;
    assert forall|j: int| 0 <= j < variants.len() && variants[j].name == name implies j == i by {
        if j < i {
            assert(names_of(variants)[j] == names_of(variants)[i]);
        } else if i < j {
            assert(names_of(variants)[i] == names_of(variants)[j]);
        }
    }
    assert(variants[i].name == name);
}

/// In an accepted table, two different variants never share a full code.
pub proof fn lemma_full_codes_distinct(prefix: Seq<char>, variants: Seq<VariantModel>, i: int, j: int)
    requires
        taxonomy_ok(prefix, variants),
        0 <= i < variants.len(),
        0 <= j < variants.len(),
        i != j,
    ensures
        full_code(prefix, variants[i].code) != full_code(prefix, variants[j].code),
{
    if i < j {
        assert(codes_of(prefix, variants)[i] != codes_of(prefix, variants)[j]);
    } else {
        assert(codes_of(prefix, variants)[j] != codes_of(prefix, variants)[i]);
    }
}

/// Why a table of declarations was refused. The indices are positions in the
/// declared list, `first < second`.
#[derive(Clone, Copy, Debug, PartialEq, Eq)]
pub enum TaxonomyError {
    /// Two entries declare the same variant.
    DuplicateVariant { first: usize, second: usize },
    /// Two entries get the same full code.
    DuplicateCode { first: usize, second: usize },
}

/// The complete mapping of one error enum: a domain prefix and one entry per
/// variant, with no variant or full code declared twice.
#[derive(Debug)]
pub struct Taxonomy {
    prefix: String,
    variants: Vec<VariantSpec>,
    codes: Vec<String>,
}

impl View for Taxonomy {
    type V = TaxonomyModel;

    closed spec fn view(&self) -> TaxonomyModel {
        TaxonomyModel {
            prefix: self.prefix@,
            variants: self.variants@.map_values(|v: VariantSpec| v@),
        }
    }
}

/// The first repeat among `items`, if any.
fn first_duplicate(items: &Vec<String>) -> (r: Option<(usize, usize)>)
    ensures
        r is None <==> !has_duplicate(items@.map_values(|s: String| s@)),
        r matches Some((i, j)) ==> is_first_duplicate(
            items@.map_values(|s: String| s@),
            i as int,
            j as int,
        ),
{
    let ghost s = items@.map_values(|s: String| s@);
    let mut j: usize = 0;
    while j < items.len()
        invariant
            j <= items.len(),
            s == items@.map_values(|s: String| s@),
            forall|a: int, b: int| 0 <= a < b < j ==> s[a] != s[b],
        decreases items.len() - j,
    {
        let mut i: usize = 0;
        while i < j
            invariant
                i <= j < items.len(),
                s == items@.map_values(|s: String| s@),
                forall|a: int, b: int| 0 <= a < b < j ==> s[a] != s[b],
                forall|a: int| 0 <= a < i ==> s[a] != s[j as int],
            decreases j - i,
        {
            if items[i] == items[j] {
                assert(s[i as int] == s[j as int]);
                return Some((i, j));
            }
            i = i + 1;
        }
        j = j + 1;
    }
    None
}

impl Taxonomy {
    #[verifier::type_invariant]
    spec fn well_formed(self) -> bool {
        &&& self.codes@.len() == self.variants@.len()
        &&& forall|a: int|
            0 <= a < self.codes@.len() ==> #[trigger] self.codes@[a]@ == full_code(
                self.prefix@,
                self.variants@[a].code@,
            )
        &&& taxonomy_ok(self@.prefix, self@.variants)
    }

    /// Builds the table for `prefix` and the declared variants, in order.
    ///
    /// Refuses a variant declared twice (the first such pair), and then two
    /// variants whose full codes `prefix ++ code` coincide (the first such
    /// pair).
    pub fn new(prefix: String, variants: Vec<VariantSpec>) -> (r: Result<Taxonomy, TaxonomyError>)
        ensures
            r is Ok <==> taxonomy_ok(prefix@, variants@.map_values(|v: VariantSpec| v@)),
            r matches Ok(t) ==> t@ == (TaxonomyModel {
                prefix: prefix@,
                variants: variants@.map_values(|v: VariantSpec| v@),
            }),
            r matches Err(TaxonomyError::DuplicateVariant { first, second }) ==> is_first_duplicate(
                names_of(variants@.map_values(|v: VariantSpec| v@)),
                first as int,
                second as int,
            ),
            r matches Err(TaxonomyError::DuplicateCode { first, second }) ==> {
                &&& !has_duplicate(names_of(variants@.map_values(|v: VariantSpec| v@)))
                &&& is_first_duplicate(
                    codes_of(prefix@, variants@.map_values(|v: VariantSpec| v@)),
                    first as int,
                    second as int,
                )
            },
    {
        let ghost model = variants@.map_values(|v: VariantSpec| v@);
        let mut names: Vec<String> = Vec::new();
        let mut codes: Vec<String> = Vec::new();
        let mut k: usize = 0;
        while k < variants.len()
            invariant
                k <= variants.len(),
                model == variants@.map_values(|v: VariantSpec| v@),
                names@.len() == k,
                codes@.len() == k,
                forall|a: int| 0 <= a < k ==> #[trigger] names@[a]@ == model[a].name,
                forall|a: int| 0 <= a < k ==> #[trigger] codes@[a]@ == full_code(prefix@, model[a].code),
            decreases variants.len() - k,
        {
            names.push(variants[k].name.clone());
            codes.push(prefix.clone().concat(variants[k].code.as_str()));
            k = k + 1;
        }
        assert(names@.map_values(|s: String| s@) =~= names_of(model));
        assert(codes@.map_values(|s: String| s@) =~= codes_of(prefix@, model));
        match first_duplicate(&names) {
            Some((first, second)) => {
                return Err(TaxonomyError::DuplicateVariant { first, second });
            },
            None => {},
        }
        match first_duplicate(&codes) {
            Some((first, second)) => Err(TaxonomyError::DuplicateCode { first, second }),
            None => Ok(Taxonomy { prefix, variants, codes }),
        }
    }

    pub fn prefix(&self) -> (r: &str)
        ensures
            r@ == self@.prefix,
    {
        self.prefix.as_str()
    }

    /// The number of variants. Every table meets the conditions that `new`
    /// checked.
    pub fn len(&self) -> (r: usize)
        ensures
            r == self@.variants.len(),
            taxonomy_ok(self@.prefix, self@.variants),
    {
        proof {
            use_type_invariant(self);
        }
        self.variants.len()
    }

    /// The declaration of the variant at `index`.
    pub fn variant(&self, index: usize) -> (r: &VariantSpec)
        requires
            index < self@.variants.len(),
        ensures
            r@ == self@.variants[index as int],
    {
        &self.variants[index]
    }

    /// The full code of the variant at `index`: the prefix followed by its
    /// short code.
    pub fn full_code(&self, index: usize) -> (r: &str)
        requires
            index < self@.variants.len(),
        ensures
            r@ == full_code(self@.prefix, self@.variants[index as int].code),
    {
        proof {
            use_type_invariant(self);
        }
        self.codes[index].as_str()
    }

    /// Where the variant called `name` stands, or `None` if no entry declares
    /// it. Names are distinct, so the position is the only one.
    pub fn position(&self, name: &str) -> (r: Option<usize>)
        ensures
            r matches Some(i) ==> i < self@.variants.len() && self@.variants[i as int].name
                == name@,
            r is None ==> forall|i: int|
                0 <= i < self@.variants.len() ==> #[trigger] self@.variants[i].name != name@,
    {
        let target = String::from_str(name);
        let mut i: usize = 0;
        while i < self.variants.len()
            invariant
                i <= self.variants@.len(),
                target@ == name@,
                forall|a: int| 0 <= a < i ==> #[trigger] self.variants@[a].name@ != name@,
            decreases self.variants.len() - i,
        {
            if self.variants[i].name == target {
                return Some(i);
            }
            i = i + 1;
        }
        None
    }

    /// The descriptor of the variant at `index` for the error value `cause`:
    /// its application code parsed into `T`, its full code, its client message
    /// as declared (empty stays empty), and `cause` itself. Fails only with the
    /// parse error of `T`.
    pub fn describe<T: AppCode, C>(&self, index: usize, cause: C) -> (r: Result<
        ErrorInfo<T, C>,
        T::ParseError,
    >)
        requires
            index < self@.variants.len(),
        ensures
            describes(
                r,
                self@.variants[index as int].app_code,
                full_code(self@.prefix, self@.variants[index as int].code),
                self@.variants[index as int].client_msg,
                cause,
            ),
    {
        proof {
            use_type_invariant(self);
        }
        let v = &self.variants[index];
        ErrorInfo::try_new(v.app_code.as_str(), self.codes[index].as_str(), v.client_msg.as_str(), cause)
    }

    /// The descriptor of the variant called `name`, or `None` if the table
    /// does not declare it.
    pub fn describe_variant<T: AppCode, C>(&self, name: &str, cause: C) -> (r: Option<
        Result<ErrorInfo<T, C>, T::ParseError>,
    >)
        ensures
            r is None <==> !names_of(self@.variants).contains(name@),
            r matches Some(d) ==> exists|i: int|
                0 <= i < self@.variants.len() && #[trigger] self@.variants[i].name == name@
                    && describes(
                    d,
                    self@.variants[i].app_code,
                    full_code(self@.prefix, self@.variants[i].code),
                    self@.variants[i].client_msg,
                    cause,
                ),
    {
        match self.position(name) {
            Some(i) => {
                assert(names_of(self@.variants)[i as int] == name@);
                Some(self.describe(i, cause))
            },
            None => {
                assert(!names_of(self@.variants).contains(name@)) by {
                    if names_of(self@.variants).contains(name@) {
                        let k = choose|k: int| 0 <= k < names_of(self@.variants).len() && names_of(self@.variants)[k] == name@;
                        assert(self@.variants[k].name != name@);
                    }
                }
                None
            },
        }
    }
}

} // verus!
