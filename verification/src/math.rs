//! The three-component vector and the 3x3 matrix.

use crate::compare::CompareOp;
use crate::scalar::Scalar;
use crate::value::named_number;
use crate::value::Value;
use crate::value::VectorKeywords;
use std::cmp::Ordering;
use vstd::prelude::*;
use vstd::string::StringExecFns;

verus! {

/// Whether two component lists of one length are numerically equal at every
/// place.
pub open spec fn all_num_eq(a: Seq<Scalar>, b: Seq<Scalar>) -> bool {
    forall|i: int| 0 <= i < a.len() ==> (#[trigger] a[i]).num_eq(b[i])
}

/// The first place from `from` on at which the two lists are not numerically
/// equal, or the length where there is none.
pub open spec fn first_difference(a: Seq<Scalar>, b: Seq<Scalar>, from: int) -> int
    decreases a.len() - from,
{
    if from < 0 || from >= a.len() {
        a.len() as int
    } else if a[from].num_eq(b[from]) {
        first_difference(a, b, from + 1)
    } else {
        from
    }
}

/// The lexicographic comparison of two component lists of one length: the
/// first place at which the numbers differ or cannot be compared decides.
pub open spec fn lex_order(a: Seq<Scalar>, b: Seq<Scalar>) -> Option<Ordering> {
    let k = first_difference(a, b, 0);
    if k >= a.len() {
        Some(Ordering::Equal)
    } else {
        a[k].num_order(b[k])
    }
}

/// The first difference lies at or after `from` and within the list, the
/// places before it are numerically equal, and the place itself is not.
pub proof fn lemma_first_difference(a: Seq<Scalar>, b: Seq<Scalar>, from: int)
    requires
        0 <= from <= a.len(),
    ensures
        from <= first_difference(a, b, from) <= a.len(),
        forall|i: int|
            from <= i < first_difference(a, b, from) ==> (#[trigger] a[i]).num_eq(b[i]),
        first_difference(a, b, from) < a.len() ==> !a[first_difference(a, b, from)].num_eq(
            b[first_difference(a, b, from)],
        ),
    decreases a.len() - from,
{
    if from < a.len() && a[from].num_eq(b[from]) {
        lemma_first_difference(a, b, from + 1);
    }
}

/// Two lists compare as `Equal` exactly when every place is numerically
/// equal.
pub proof fn lemma_lex_order_equal(a: Seq<Scalar>, b: Seq<Scalar>)
    ensures
        lex_order(a, b) == Some(Ordering::Equal) <==> all_num_eq(a, b),
{
    lemma_first_difference(a, b, 0);
}

fn first_difference_index(a: &[Scalar], b: &[Scalar]) -> (r: usize)
    requires
        a@.len() == b@.len(),
    ensures
        r == first_difference(a@, b@, 0),
        r <= a@.len(),
{
    let mut i: usize = 0;
    while i < a.len()
        invariant
            i <= a@.len(),
            a@.len() == b@.len(),
            first_difference(a@, b@, 0) == first_difference(a@, b@, i as int),
        decreases a@.len() - i,
    {
        if !(a[i] == b[i]) {
            return i;
        }
        i += 1;
    }
    i
}

fn slices_num_eq(a: &[Scalar], b: &[Scalar]) -> (r: bool)
    requires
        a@.len() == b@.len(),
    ensures
        r == all_num_eq(a@, b@),
{
    proof {
        lemma_first_difference(a@, b@, 0);
    }
    first_difference_index(a, b) >= a.len()
}

fn slices_order(a: &[Scalar], b: &[Scalar]) -> (r: Option<Ordering>)
    requires
        a@.len() == b@.len(),
    ensures
        r == lex_order(a@, b@),
{
    let k: usize = first_difference_index(a, b);
    if k >= a.len() {
        Some(Ordering::Equal)
    } else {
        a[k].partial_cmp(&b[k])
    }
}

/// An index that is not 0, 1 or 2.
#[derive(Clone, Copy, Debug, PartialEq, Eq)]
pub struct IndexError {
    pub index: usize,
}

impl IndexError {
    /// What the error says.
    pub fn message(&self) -> (r: &'static str)
        ensures
            r@ == "index out of range"@,
    {
        "index out of range"
    }
}

/// A vector of three components x, y, z.
#[derive(Clone, Copy, Debug)]
pub struct Vec3 {
    pub data: [Scalar; 3],
}

impl View for Vec3 {
    type V = Seq<Scalar>;

    open spec fn view(&self) -> Seq<Scalar> {
        self.data@
    }
}

impl Vec3 {
    /// The vector whose components are those of the array, in order.
    pub open spec fn spec_from_array(value: [Scalar; 3]) -> Vec3 {
        Vec3 { data: value }
    }

    /// The three components as an array, in order.
    pub open spec fn spec_to_array(self) -> [Scalar; 3] {
        self.data
    }

    /// Whether the two vectors are numerically equal, component by
    /// component.
    pub open spec fn num_eq(self, other: Vec3) -> bool {
        &&& self@[0].num_eq(other@[0])
        &&& self@[1].num_eq(other@[1])
        &&& self@[2].num_eq(other@[2])
    }

    /// The vector of three zeros.
    pub open spec fn spec_zero() -> Vec3 {
        Vec3 { data: [Scalar::zero(), Scalar::zero(), Scalar::zero()] }
    }

    #[verifier::when_used_as_spec(spec_zero)]
    pub fn zero() -> (r: Vec3)
        ensures
            r == Vec3::spec_zero(),
    {
        Vec3 { data: [Scalar::zero(), Scalar::zero(), Scalar::zero()] }
    }

    /// The vector of the three given components.
    pub open spec fn spec_xyz(x: Scalar, y: Scalar, z: Scalar) -> Vec3 {
        Vec3 { data: [x, y, z] }
    }

    #[verifier::when_used_as_spec(spec_xyz)]
    pub fn xyz(x: Scalar, y: Scalar, z: Scalar) -> (r: Vec3)
        ensures
            r == Vec3::spec_xyz(x, y, z),
            r@ == seq![x, y, z],
    {
        Vec3 { data: [x, y, z] }
    }

    /// The number that the positional arguments supply for component
    /// `index`. A leading sequence of numbers supplies its items in order
    /// and the arguments after it are not read; otherwise the argument at
    /// the component's own place supplies it, where that is a number.
    pub open spec fn positional(args: Seq<Value>, index: int) -> Option<Scalar> {
        if args.len() > 0 && args[0] is Numbers {
            let list = args[0]->Numbers_0@;
            if index < list.len() {
                Some(list[index])
            } else {
                None
            }
        } else if index < args.len() {
            args[index].number()
        } else {
            None
        }
    }

    /// The number that the named arguments supply for component `index`.
    pub open spec fn named(kwargs: &Option<VectorKeywords>, index: int) -> Option<Scalar> {
        match *kwargs {
            Some(k) => if index == 0 {
                named_number(&k.x)
            } else if index == 1 {
                named_number(&k.y)
            } else {
                named_number(&k.z)
            },
            None => None,
        }
    }

    /// Component `index` of the constructed vector: what the name supplies,
    /// else what the position supplies, else `0.0`.
    pub open spec fn component(
        args: Seq<Value>,
        kwargs: &Option<VectorKeywords>,
        index: int,
    ) -> Scalar {
        match Vec3::named(kwargs, index) {
            Some(s) => s,
            None => match Vec3::positional(args, index) {
                Some(s) => s,
                None => Scalar::zero(),
            },
        }
    }

    /// The vector that a constructor call yields. A leading vector is
    /// copied and nothing else is read. Otherwise each component is taken by
    /// itself, and what cannot be read as a number is passed over.
    pub open spec fn spec_new(args: Seq<Value>, kwargs: &Option<VectorKeywords>) -> Vec3 {
        if args.len() > 0 && args[0] is Vector {
            args[0]->Vector_0
        } else {
            Vec3::xyz(
                Vec3::component(args, kwargs, 0),
                Vec3::component(args, kwargs, 1),
                Vec3::component(args, kwargs, 2),
            )
        }
    }

    fn positional_at(args: &[Value], index: usize) -> (r: Option<Scalar>)
        ensures
            r == Vec3::positional(args@, index as int),
    {
        if args.len() > 0 {
            if let Value::Numbers(list) = &args[0] {
                return if index < list.len() {
                    Some(list[index])
                } else {
                    None
                };
            }
        }
        if index < args.len() {
            args[index].number()
        } else {
            None
        }
    }

    fn named_at(kwargs: &Option<VectorKeywords>, index: usize) -> (r: Option<Scalar>)
        ensures
            r == Vec3::named(kwargs, index as int),
    {
        match kwargs {
            Some(k) => if index == 0 {
                named_number(&k.x)
            } else if index == 1 {
                named_number(&k.y)
            } else {
                named_number(&k.z)
            },
            None => None,
        }
    }

    /// Builds a vector from the arguments of a constructor call, by
    /// position in `args` and by name in `kwargs`. No argument makes it
    /// fail.
    pub fn new(args: &[Value], kwargs: &Option<VectorKeywords>) -> (r: Vec3)
        ensures
            r == Vec3::spec_new(args@, kwargs),
    {
        if args.len() > 0 {
            if let Value::Vector(v) = &args[0] {
                return *v;
            }
        }
        let mut parts: [Option<Scalar>; 3] = [None, None, None];
        let mut i: usize = 0;
        while i < 3
            invariant
                i <= 3,
                forall|j: int| 0 <= j < i ==> parts@[j] == Vec3::positional(args@, j),
            decreases 3 - i,
        {
            parts[i] = Vec3::positional_at(args, i);
            i += 1;
        }
        let mut k: usize = 0;
        while k < 3
            invariant
                k <= 3,
                forall|j: int|
                    0 <= j < k ==> parts@[j] == Some(Vec3::component(args@, kwargs, j))
                        || (parts@[j] is None && Vec3::component(args@, kwargs, j)
                        == Scalar::zero()),
                forall|j: int| k <= j < 3 ==> parts@[j] == Vec3::positional(args@, j),
            decreases 3 - k,
        {
            if let Some(s) = Vec3::named_at(kwargs, k) {
                parts[k] = Some(s);
            }
            k += 1;
        }
        Vec3::xyz(
            parts[0].unwrap_or(Scalar::zero()),
            parts[1].unwrap_or(Scalar::zero()),
            parts[2].unwrap_or(Scalar::zero()),
        )
    }

    /// The component at `index`, or the error for an index past 2.
    pub fn get_item(&self, index: usize) -> (r: Result<Scalar, IndexError>)
        ensures
            index < 3 ==> r == Ok::<Scalar, IndexError>(self@[index as int]),
            index >= 3 ==> r == Err::<Scalar, IndexError>(IndexError { index }),
    {
        if index >= 3 {
            Err(IndexError { index })
        } else {
            Ok(self.data[index])
        }
    }

    /// Replaces the component at `index`; for an index past 2 it fails and
    /// the vector stays as it was.
    pub fn set_item(&mut self, index: usize, value: Scalar) -> (r: Result<(), IndexError>)
        ensures
            index < 3 ==> r == Ok::<(), IndexError>(()) && final(self)@ == old(self)@.update(
                index as int,
                value,
            ),
            index >= 3 ==> r == Err::<(), IndexError>(IndexError { index }) && *final(self) == *old(
                self,
            ),
    {
        if index >= 3 {
            Err(IndexError { index })
        } else {
            self.data[index] = value;
            Ok(())
        }
    }

    /// What a rich comparison with `other` answers: `==` holds when every
    /// component is numerically equal; `!=` holds exactly when `==` does
    /// not, so also where a NaN keeps two components from being equal; the
    /// four ordering operators never hold.
    pub open spec fn spec_richcmp(self, other: Vec3, op: CompareOp) -> bool {
        match op {
            CompareOp::Eq => self.num_eq(other),
            CompareOp::Ne => !self.num_eq(other),
            _ => false,
        }
    }

    /// The rich comparison of the host: only `==` and `!=` are answered, the
    /// ordering operators are accepted and give `false`.
    pub fn richcmp(&self, other: Vec3, op: CompareOp) -> (r: bool)
        ensures
            r == self.spec_richcmp(other, op),
    {
        if !(op == CompareOp::Eq || op == CompareOp::Ne) {
            return false;
        }
        proof {
            lemma_lex_order_equal(self@, other@);
        }
        match self.partial_cmp(&other) {
            None => op == CompareOp::Ne,
            Some(order) => op.matches(order),
        }
    }

    /// The canonical text of a vector, from the texts of its components as
    /// the host prints a number.
    pub open spec fn spec_repr_of(x: Seq<char>, y: Seq<char>, z: Seq<char>) -> Seq<char> {
        "vec3(x="@ + x + ", y="@ + y + ", z="@ + z + ")"@
    }

    /// Puts the canonical text of a vector together from the texts of its
    /// components.
    pub fn repr_of(x: &str, y: &str, z: &str) -> (r: String)
        ensures
            r@ == Vec3::spec_repr_of(x@, y@, z@),
    {
        let mut out = String::from_str("vec3(x=");
        out.append(x);
        out.append(", y=");
        out.append(y);
        out.append(", z=");
        out.append(z);
        out.append(")");
        out
    }

    pub fn get_x(&self) -> (r: Scalar)
        ensures
            r == self@[0],
    {
        self.data[0]
    }

    pub fn set_x(&mut self, x: Scalar)
        ensures
            final(self)@ == old(self)@.update(0, x),
    {
        self.data[0] = x;
    }

    pub fn get_y(&self) -> (r: Scalar)
        ensures
            r == self@[1],
    {
        self.data[1]
    }

    pub fn set_y(&mut self, y: Scalar)
        ensures
            final(self)@ == old(self)@.update(1, y),
    {
        self.data[1] = y;
    }

    pub fn get_z(&self) -> (r: Scalar)
        ensures
            r == self@[2],
    {
        self.data[2]
    }

    pub fn set_z(&mut self, z: Scalar)
        ensures
            final(self)@ == old(self)@.update(2, z),
    {
        self.data[2] = z;
    }
}

impl Default for Vec3 {
    fn default() -> (r: Vec3)
        ensures
            r == Vec3::spec_zero(),
    {
        Vec3::zero()
    }
}

impl vstd::std_specs::convert::FromSpecImpl<[Scalar; 3]> for Vec3 {
    open spec fn obeys_from_spec() -> bool {
        true
    }

    open spec fn from_spec(value: [Scalar; 3]) -> Vec3 {
        Vec3::spec_from_array(value)
    }
}

impl From<[Scalar; 3]> for Vec3 {
    fn from(value: [Scalar; 3]) -> (r: Vec3) {
        Vec3 { data: value }
    }
}

impl vstd::std_specs::convert::FromSpecImpl<Vec3> for [Scalar; 3] {
    open spec fn obeys_from_spec() -> bool {
        true
    }

    open spec fn from_spec(value: Vec3) -> [Scalar; 3] {
        value.spec_to_array()
    }
}

impl From<Vec3> for [Scalar; 3] {
    fn from(value: Vec3) -> (r: [Scalar; 3]) {
        value.data
    }
}

impl vstd::std_specs::cmp::PartialEqSpecImpl for Vec3 {
    open spec fn obeys_eq_spec() -> bool {
        true
    }

    open spec fn eq_spec(&self, other: &Vec3) -> bool {
        self.num_eq(*other)
    }
}

impl PartialEq for Vec3 {
    fn eq(&self, other: &Vec3) -> (r: bool) {
        slices_num_eq(self.data.as_slice(), other.data.as_slice())
    }
}

impl vstd::std_specs::cmp::PartialOrdSpecImpl for Vec3 {
    open spec fn obeys_partial_cmp_spec() -> bool {
        true
    }

    open spec fn partial_cmp_spec(&self, other: &Vec3) -> Option<Ordering> {
        lex_order(self@, other@)
    }
}

impl PartialOrd for Vec3 {
    fn partial_cmp(&self, other: &Vec3) -> (r: Option<Ordering>) {
        slices_order(self.data.as_slice(), other.data.as_slice())
    }
}

/// A vector that is taken to the array form and back is the same vector,
/// pattern for pattern, and an array that is taken to a vector and back is
/// the same array. Where no component is a NaN the two are numerically equal
/// as well.
pub proof fn lemma_vec3_round_trip(v: Vec3, a: [Scalar; 3])
    ensures
        Vec3::spec_from_array(v.spec_to_array()) == v,
        Vec3::spec_from_array(a).spec_to_array() == a,
        !v@[0].is_nan() && !v@[1].is_nan() && !v@[2].is_nan() ==> Vec3::spec_from_array(
            v.spec_to_array(),
        ).num_eq(v),
{
}

/// A matrix that is taken to the array form and back is the same matrix,
/// and an array that is taken to a matrix and back is the same array.
pub proof fn lemma_mat3_round_trip(m: Mat3, a: [Scalar; 9])
    ensures
        Mat3::spec_from_array(m.spec_to_array()) == m,
        Mat3::spec_from_array(a).spec_to_array() == a,
{
}

/// What the six operators answer on two vectors. `==` holds exactly when
/// the three components are numerically equal, one by one. `!=` is its
/// negation for every pair, so a vector with a NaN component is unequal to
/// every vector, itself included. The four ordering operators never hold.
pub proof fn lemma_richcmp(a: Vec3, b: Vec3)
    ensures
        a.spec_richcmp(b, CompareOp::Eq) <==> a@[0].num_eq(b@[0]) && a@[1].num_eq(b@[1])
            && a@[2].num_eq(b@[2]),
        a.spec_richcmp(b, CompareOp::Ne) <==> !a.spec_richcmp(b, CompareOp::Eq),
        a@[0].is_nan() || a@[1].is_nan() || a@[2].is_nan() ==> a.spec_richcmp(b, CompareOp::Ne),
        !a.spec_richcmp(b, CompareOp::Lt),
        !a.spec_richcmp(b, CompareOp::Le),
        !a.spec_richcmp(b, CompareOp::Gt),
        !a.spec_richcmp(b, CompareOp::Ge),
{
}

/// A 3x3 matrix of nine components in row-major order.
#[derive(Clone, Copy, Debug)]
pub struct Mat3 {
    pub data: [Scalar; 9],
}

impl View for Mat3 {
    type V = Seq<Scalar>;

    open spec fn view(&self) -> Seq<Scalar> {
        self.data@
    }
}

impl Mat3 {
    /// The matrix whose components are those of the array, row by row.
    pub open spec fn spec_from_array(value: [Scalar; 9]) -> Mat3 {
        Mat3 { data: value }
    }

    /// The nine components as an array, row by row.
    pub open spec fn spec_to_array(self) -> [Scalar; 9] {
        self.data
    }

    /// The components that a constructor call yields, row by row. A leading
    /// matrix is copied. A leading sequence of numbers is read as the
    /// components in order, as far as it goes. What is not supplied is
    /// `0.0`.
    pub open spec fn spec_new(args: Seq<Value>) -> Seq<Scalar> {
        if args.len() > 0 && args[0] is Matrix {
            args[0]->Matrix_0@
        } else if args.len() > 0 && args[0] is Numbers {
            let list = args[0]->Numbers_0@;
            Seq::new(
                9,
                |i: int|
                    if i < list.len() {
                        list[i]
                    } else {
                        Scalar::zero()
                    },
            )
        } else {
            Mat3::spec_zero()@
        }
    }

    /// Builds a matrix from the arguments of a constructor call. No
    /// argument makes it fail.
    pub fn new(args: &[Value]) -> (r: Mat3)
        ensures
            r@ == Mat3::spec_new(args@),
    {
        let mut out = Mat3::zero();
        if args.len() > 0 {
            match &args[0] {
                Value::Matrix(m) => {
                    out = *m;
                },
                Value::Numbers(list) => {
                    let mut i: usize = 0;
                    while i < 9 && i < list.len()
                        invariant
                            i <= 9,
                            i <= list@.len(),
                            out@.len() == 9,
                            forall|j: int| 0 <= j < i ==> out@[j] == list@[j],
                            forall|j: int| i <= j < 9 ==> out@[j] == Scalar::zero(),
                        decreases 9 - i,
                    {
                        out.data[i] = list[i];
                        i += 1;
                    }
                    assert(out@ =~= Mat3::spec_new(args@));
                },
                _ => {},
            }
        }
        out
    }

    /// The matrix of nine zeros.
    pub open spec fn spec_zero() -> Mat3 {
        let o = Scalar::zero();
        Mat3 { data: [o, o, o, o, o, o, o, o, o] }
    }

    #[verifier::when_used_as_spec(spec_zero)]
    pub fn zero() -> (r: Mat3)
        ensures
            r == Mat3::spec_zero(),
    {
        let o = Scalar::zero();
        Mat3 { data: [o, o, o, o, o, o, o, o, o] }
    }

    /// The identity matrix: `1.0` on the diagonal, `0.0` elsewhere.
    pub open spec fn spec_identity() -> Mat3 {
        let o = Scalar::zero();
        let i = Scalar::one();
        Mat3 { data: [i, o, o, o, i, o, o, o, i] }
    }

    #[verifier::when_used_as_spec(spec_identity)]
    pub fn identity() -> (r: Mat3)
        ensures
            r == Mat3::spec_identity(),
    {
        let o = Scalar::zero();
        let i = Scalar::one();
        Mat3 { data: [i, o, o, o, i, o, o, o, i] }
    }
}

impl Default for Mat3 {
    fn default() -> (r: Mat3)
        ensures
            r == Mat3::spec_zero(),
    {
        Mat3::zero()
    }
}

impl vstd::std_specs::convert::FromSpecImpl<[Scalar; 9]> for Mat3 {
    open spec fn obeys_from_spec() -> bool {
        true
    }

    open spec fn from_spec(value: [Scalar; 9]) -> Mat3 {
        Mat3::spec_from_array(value)
    }
}

impl From<[Scalar; 9]> for Mat3 {
    fn from(value: [Scalar; 9]) -> (r: Mat3) {
        Mat3 { data: value }
    }
}

impl vstd::std_specs::convert::FromSpecImpl<Mat3> for [Scalar; 9] {
    open spec fn obeys_from_spec() -> bool {
        true
    }

    open spec fn from_spec(value: Mat3) -> [Scalar; 9] {
        value.spec_to_array()
    }
}

impl From<Mat3> for [Scalar; 9] {
    fn from(value: Mat3) -> (r: [Scalar; 9]) {
        value.data
    }
}

impl vstd::std_specs::cmp::PartialEqSpecImpl for Mat3 {
    open spec fn obeys_eq_spec() -> bool {
        true
    }

    open spec fn eq_spec(&self, other: &Mat3) -> bool {
        all_num_eq(self@, other@)
    }
}

impl PartialEq for Mat3 {
    fn eq(&self, other: &Mat3) -> (r: bool) {
        slices_num_eq(self.data.as_slice(), other.data.as_slice())
    }
}

impl vstd::std_specs::cmp::PartialOrdSpecImpl for Mat3 {
    open spec fn obeys_partial_cmp_spec() -> bool {
        true
    }

    open spec fn partial_cmp_spec(&self, other: &Mat3) -> Option<Ordering> {
        lex_order(self@, other@)
    }
}

impl PartialOrd for Mat3 {
    fn partial_cmp(&self, other: &Mat3) -> (r: Option<Ordering>) {
        slices_order(self.data.as_slice(), other.data.as_slice())
    }
}

} // verus!
