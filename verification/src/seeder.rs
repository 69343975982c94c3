use vstd::prelude::*;

verus! {

/// The ChaCha random generator with eight rounds, used to derive test data
/// reproducibly from a seed. Its state is opaque to the verifier.
#[verifier::external_type_specification]
#[verifier::external_body]
pub struct ExChaCha8Rng(rand_chacha::ChaCha8Rng);

/// Relies on rand_core's `SeedableRng::seed_from_u64`: derives a generator
/// state from a seed. Nothing can be promised of the state itself.
#[verifier::external_body]
fn rng_from_seed(seed: u64) -> rand_chacha::ChaCha8Rng {
    <rand_chacha::ChaCha8Rng as rand::SeedableRng>::seed_from_u64(seed)
}

/// Relies on rand_core's `RngCore::next_u64` for `ChaCha8Rng`: one draw.
/// Nothing can be promised of a random value.
#[verifier::external_body]
fn rng_next_u64(rng: &mut rand_chacha::ChaCha8Rng) -> u64 {
    rand::RngCore::next_u64(rng)
}

/// Relies on rand's `Rng::gen_range` over the half-open range `low..high`
/// at type `u64`: it panics on an empty range, and returns a value of that
/// range.
#[verifier::external_body]
fn rng_range_u64(rng: &mut rand_chacha::ChaCha8Rng, low: u64, high: u64) -> (r: u64)
    requires
        low < high,
    ensures
        low <= r < high,
{
    rand::Rng::gen_range(rng, low..high)
}

/// Relies on rand's `Rng::gen_range` over the half-open range `low..high`
/// at type `usize` (the type at which group sizes are drawn, so that a
/// given seed always regenerates the same stream): it panics on an empty
/// range, and returns a value of that range.
#[verifier::external_body]
fn rng_range_usize(rng: &mut rand_chacha::ChaCha8Rng, low: usize, high: usize) -> (r: usize)
    requires
        low < high,
    ensures
        low <= r < high,
{
    rand::Rng::gen_range(rng, low..high)
}

/// Relies on rand's `Rng::gen_range` over the half-open range `low..high`
/// at type `i32` (the type at which byte values are drawn, so that a given
/// seed always regenerates the same stream): it panics on an empty range,
/// and returns a value of that range.
#[verifier::external_body]
fn rng_range_i32(rng: &mut rand_chacha::ChaCha8Rng, low: i32, high: i32) -> (r: i32)
    requires
        low < high,
    ensures
        low <= r < high,
{
    rand::Rng::gen_range(rng, low..high)
}

/// Relies on rand's `Rng::gen_range` over the inclusive range `low..=high`
/// at type `i32` (the type and range form at which noise letters are drawn,
/// so that a given seed always regenerates the same stream): it panics on
/// an empty range, and returns a value of that range.
#[verifier::external_body]
fn rng_range_i32_inclusive(rng: &mut rand_chacha::ChaCha8Rng, low: i32, high: i32) -> (r: i32)
    requires
        low <= high,
    ensures
        low <= r <= high,
{
    rand::Rng::gen_range(rng, low..=high)
}

/// Draw once and answer `true` with the given probability in percent.
fn bool_with_prob(prob: u64, rng: &mut rand_chacha::ChaCha8Rng) -> (r: bool)
    ensures
        prob == 0 ==> r == false,
        prob >= 100 ==> r == true,
{
    let random = (rng_next_u64(rng) % 100) + 1;
    random <= prob
}

/// The decimal ASCII rendering of `n`, most significant digit first.
pub open spec fn spec_number_ascii(n: int) -> Seq<u8>
    decreases n,
    when 0 <= n
{
    if n < 10 {
        seq![(48 + n) as u8]
    } else {
        spec_number_ascii(n / 10).push((48 + n % 10) as u8)
    }
}

/// Render a byte-sized number as decimal ASCII.
pub fn number_to_ascii(num: &u8) -> (r: Vec<u8>)
    ensures
        r@ == spec_number_ascii(*num as int),
{
    let n = *num;
    let mut r: Vec<u8> = Vec::new();
    if n >= 100 {
        r.push(48 + n / 100);
    }
    if n >= 10 {
        r.push(48 + (n / 10) % 10);
    }
    r.push(48 + n % 10);
    proof {
        let ni = n as int;
        if ni < 10 {
            assert(r@ =~= spec_number_ascii(ni));
        } else if ni < 100 {
            assert(spec_number_ascii(ni / 10) =~= seq![(48 + ni / 10) as u8]);
            assert(r@ =~= spec_number_ascii(ni));
        } else {
            assert((ni / 10) / 10 == ni / 100) by (nonlinear_arith)
                requires
                    100 <= ni <= 255,
            ;
            assert(spec_number_ascii(ni / 100) =~= seq![(48 + ni / 100) as u8]);
            assert(spec_number_ascii(ni / 10) =~= spec_number_ascii(ni / 100).push((48 + (ni / 10)
                % 10) as u8));
            assert(r@ =~= spec_number_ascii(ni));
        }
    }
    r
}

/// One element of a generated group: a genuine number, or an injected byte
/// of noise.
#[derive(Clone, Copy, Debug, PartialEq, Eq)]
pub enum GroupValue {
    /// A number that belongs to the group
    Number(u8),
    /// A noise byte injected to make the group fail to parse
    Garbage(u8),
}

/// The bytes one element contributes to the rendered group.
pub open spec fn value_bytes(v: GroupValue) -> Seq<u8> {
    match v {
        GroupValue::Number(n) => spec_number_ascii(n as int),
        GroupValue::Garbage(c) => seq![c],
    }
}

/// All elements rendered in order, each followed by a comma.
pub open spec fn values_with_commas(elems: Seq<GroupValue>) -> Seq<u8>
    decreases elems.len(),
{
    if elems.len() == 0 {
        Seq::empty()
    } else {
        values_with_commas(elems.drop_last()) + value_bytes(elems.last()) + seq![44u8]
    }
}

/// The full rendering of a group: an opening parenthesis, the elements
/// separated by commas, a closing parenthesis. An empty group renders as a
/// bare closing parenthesis: the separator-trimming step removes the
/// opening one, a quirk kept as observed behaviour.
pub open spec fn spec_render_group(elems: Seq<GroupValue>) -> Seq<u8> {
    let full = seq![40u8] + values_with_commas(elems);
    full.take(full.len() - 1).push(41u8)
}

/// The numbers of a group, in order, noise left out.
pub open spec fn spec_expected(elems: Seq<GroupValue>) -> Seq<u8>
    decreases elems.len(),
{
    if elems.len() == 0 {
        Seq::empty()
    } else {
        spec_expected(elems.drop_last()) + (match elems.last() {
            GroupValue::Number(n) => seq![n],
            GroupValue::Garbage(_) => Seq::empty(),
        })
    }
}

/// Whether any element of the group is noise.
pub open spec fn spec_has_garbage(elems: Seq<GroupValue>) -> bool {
    exists|i: int| 0 <= i < elems.len() && elems[i] is Garbage
}

/// Render a group of elements as bytes.
pub fn render_group(elements: &Vec<GroupValue>) -> (r: Vec<u8>)
    ensures
        r@ == spec_render_group(elements@),
{
    let mut r: Vec<u8> = Vec::new();
    r.push(40);
    let mut i: usize = 0;
    while i < elements.len()
        invariant
            i <= elements@.len(),
            r@ == seq![40u8] + values_with_commas(elements@.take(i as int)),
        decreases elements@.len() - i,
    {
        let part = match &elements[i] {
            GroupValue::Number(n) => number_to_ascii(n),
            GroupValue::Garbage(c) => {
                let mut one: Vec<u8> = Vec::new();
                one.push(*c);
                one
            },
        };
        let mut t: usize = 0;
        while t < part.len()
            invariant
                t <= part@.len(),
                r@ == seq![40u8] + values_with_commas(elements@.take(i as int)) + part@.take(
                    t as int,
                ),
            decreases part@.len() - t,
        {
            let b = part[t];
            r.push(b);
            proof {
                assert(part@.take(t + 1) =~= part@.take(t as int).push(part@[t as int]));
            }
            t += 1;
        }
        r.push(44);
        proof {
            assert(part@.take(part@.len() as int) =~= part@);
            assert(value_bytes(elements@[i as int]) == part@);
            assert(elements@.take(i + 1).drop_last() =~= elements@.take(i as int));
            assert(elements@.take(i + 1).last() == elements@[i as int]);
            assert(values_with_commas(elements@.take(i + 1)) == values_with_commas(
                elements@.take(i as int),
            ) + part@ + seq![44u8]);
            assert(r@ =~= seq![40u8] + values_with_commas(elements@.take(i + 1)));
        }
        i += 1;
    }
    proof {
        assert(elements@.take(elements@.len() as int) =~= elements@);
    }
    r.pop();
    r.push(41);
    proof {
        let full = seq![40u8] + values_with_commas(elements@);
        assert(r@ =~= full.take(full.len() - 1).push(41u8));
    }
    r
}

/// Collect the numbers of a group, noise left out.
pub fn expected_of(elements: &Vec<GroupValue>) -> (r: Vec<u8>)
    ensures
        r@ == spec_expected(elements@),
{
    let mut r: Vec<u8> = Vec::new();
    let mut i: usize = 0;
    while i < elements.len()
        invariant
            i <= elements@.len(),
            r@ == spec_expected(elements@.take(i as int)),
        decreases elements@.len() - i,
    {
        match &elements[i] {
            GroupValue::Number(n) => {
                r.push(*n);
            },
            GroupValue::Garbage(_) => {},
        }
        proof {
            assert(elements@.take(i + 1).drop_last() =~= elements@.take(i as int));
            assert(elements@.take(i + 1).last() == elements@[i as int]);
        }
        i += 1;
    }
    proof {
        assert(elements@.take(elements@.len() as int) =~= elements@);
    }
    r
}

/// Generate garbage to sit between groups: printable bytes, never a digit
/// and never a slash, so that stray digits cannot extend a number.
fn generate_garbage_between_groups(amount_of_garbage: usize, rng: &mut rand_chacha::ChaCha8Rng)
    -> (r: Vec<u8>)
    ensures
        r@.len() == amount_of_garbage,
        forall|i: int| 0 <= i < r@.len() ==> 32 <= #[trigger] r@[i] <= 125 && !(47 <= r@[i] <= 57),
{
    let mut r: Vec<u8> = Vec::new();
    let mut i: usize = 0;
    while i < amount_of_garbage
        invariant
            i <= amount_of_garbage,
            r@.len() == i,
            forall|j: int|
                0 <= j < r@.len() ==> 32 <= #[trigger] r@[j] <= 125 && !(47 <= r@[j] <= 57),
        decreases amount_of_garbage - i,
    {
        let mut garbage = rng_range_i32(rng, 32, 126) as u8;
        if 47 <= garbage && garbage <= 57 {
            garbage = garbage + 11;
        }
        r.push(garbage);
        i += 1;
    }
    r
}

/// Generate one group: its rendered bytes, whether noise was injected, the
/// numbers a parser should extract from it when it carries no noise, and
/// the elements themselves.
fn generate_group_data(
    rng: &mut rand_chacha::ChaCha8Rng,
    element_per_group_number: usize,
    probability_to_generate_failed_group: u64,
    probability_per_element_to_generate_garbage: u64,
) -> (r: (Vec<u8>, bool, Vec<u8>, Vec<GroupValue>))
    ensures
        r.0@ == spec_render_group(r.3@),
        r.1 == spec_has_garbage(r.3@),
        !r.1 ==> r.2@ == spec_expected(r.3@),
{
    let mut group_elements: Vec<GroupValue> = Vec::new();
    let mut i: usize = 0;
    while i < element_per_group_number
        invariant
            i <= element_per_group_number,
            forall|j: int|
                0 <= j < group_elements@.len() ==> #[trigger] group_elements@[j] is Number,
        decreases element_per_group_number - i,
    {
        let n = rng_range_i32(rng, 0, 99);
        group_elements.push(GroupValue::Number(n as u8));
        i += 1;
    }
    let expected = expected_of(&group_elements);
    let ghost elems0 = group_elements@;
    let mut noise = false;
    if bool_with_prob(probability_to_generate_failed_group, rng) {
        // First pass: decide which elements to replace.
        let mut index_to_replace: Vec<usize> = Vec::new();
        let mut index: usize = 0;
        while index < group_elements.len()
            invariant
                noise == (index_to_replace@.len() > 0),
                forall|j: int|
                    0 <= j < index_to_replace@.len() ==> #[trigger] index_to_replace@[j]
                        < group_elements@.len(),
            decreases group_elements@.len() - index,
        {
            if bool_with_prob(probability_per_element_to_generate_garbage, rng) {
                noise = true;
                index_to_replace.push(index);
            }
            index += 1;
        }
        proof {
            assert(noise == (index_to_replace@.len() > 0));
        }
        // Second pass: draw the replacement letters.
        let mut t: usize = 0;
        while t < index_to_replace.len()
            invariant
                forall|j: int|
                    0 <= j < index_to_replace@.len() ==> #[trigger] index_to_replace@[j]
                        < group_elements@.len(),
                group_elements@.len() == elems0.len(),
                t <= index_to_replace@.len(),
                t == 0 ==> group_elements@ == elems0,
                (t >= 1 && index_to_replace@.len() >= 1) ==> group_elements@[index_to_replace@[0] as int]
                    is Garbage,
            decreases index_to_replace@.len() - t,
        {
            let garbage = rng_range_i32_inclusive(rng, 97, 122);
            let at = index_to_replace[t];
            group_elements[at] = GroupValue::Garbage(garbage as u8);
            t += 1;
        }
        proof {
            if noise {
                assert(group_elements@[index_to_replace@[0] as int] is Garbage);
                assert(spec_has_garbage(group_elements@));
            } else {
                assert(group_elements@ == elems0);
            }
        }
    }
    proof {
        if !noise {
            assert(group_elements@ == elems0);
            assert(!spec_has_garbage(group_elements@));
        }
    }
    let result_data = render_group(&group_elements);
    (result_data, noise, expected, group_elements)
}

/// The values `v` are exactly what a clean (noise-free) group of elements
/// yields.
pub open spec fn expected_from_clean_group(v: Seq<u8>) -> bool {
    exists|elems: Seq<GroupValue>|
        v == #[trigger] spec_expected(elems) && !spec_has_garbage(elems)
}

/// Generate a whole byte stream of groups with optional garbage between
/// them, along with the list of number sequences a stream parser should
/// extract: one entry per noise-free, non-empty group, in order.
pub fn generate_groups_data(
    rng: &mut rand_chacha::ChaCha8Rng,
    number_of_groups: usize,
    probability_to_generate_garbage_between_groups: u64,
    max_probability_to_generate_failed_group: u64,
    max_probability_per_element_to_generate_garbage: u64,
    max_garbage_element_between_groups: u64,
    max_element_per_group_number: usize,
) -> (r: (Vec<u8>, Vec<Vec<u8>>))
    requires
        max_probability_to_generate_failed_group >= 1,
        max_probability_per_element_to_generate_garbage >= 1,
        max_garbage_element_between_groups >= 1,
        max_element_per_group_number >= 1,
    ensures
        r.1@.len() <= number_of_groups,
        forall|i: int| 0 <= i < r.1@.len() ==> expected_from_clean_group(#[trigger] r.1@[i]@),
{
    let mut result_data: Vec<u8> = Vec::new();
    if bool_with_prob(probability_to_generate_garbage_between_groups, rng) {
        let number_of_garbage = rng_range_u64(rng, 0, max_garbage_element_between_groups);
        let mut garbage = generate_garbage_between_groups(number_of_garbage as usize, rng);
        result_data.append(&mut garbage);
    }
    let mut expected: Vec<Vec<u8>> = Vec::new();
    let mut g: usize = 0;
    while g < number_of_groups
        invariant
            g <= number_of_groups,
            max_probability_to_generate_failed_group >= 1,
            max_probability_per_element_to_generate_garbage >= 1,
            max_garbage_element_between_groups >= 1,
            max_element_per_group_number >= 1,
            expected@.len() <= g,
            forall|i: int|
                0 <= i < expected@.len() ==> expected_from_clean_group(#[trigger] expected@[i]@),
        decreases number_of_groups - g,
    {
        let element_per_group = rng_range_usize(rng, 0, max_element_per_group_number);
        let probability_of_failed_group = rng_range_u64(
            rng,
            0,
            max_probability_to_generate_failed_group,
        );
        let probability_of_failed_element = rng_range_u64(
            rng,
            0,
            max_probability_per_element_to_generate_garbage,
        );
        let (group, noise, expected_group_value, group_elements) = generate_group_data(
            rng,
            element_per_group,
            probability_of_failed_group,
            probability_of_failed_element,
        );
        let mut group = group;
        result_data.append(&mut group);
        if !noise && expected_group_value.len() != 0 {
            proof {
                assert(expected_group_value@ == spec_expected(group_elements@));
                assert(expected_from_clean_group(expected_group_value@));
            }
            expected.push(expected_group_value);
        }
        if bool_with_prob(probability_to_generate_garbage_between_groups, rng) {
            let number_of_garbage = rng_range_u64(rng, 0, max_garbage_element_between_groups);
            let mut garbage = generate_garbage_between_groups(number_of_garbage as usize, rng);
            result_data.append(&mut garbage);
        }
        g += 1;
    }
    (result_data, expected)
}

/// Configuration of the seeded test-data generator.
pub struct SeederConfig {
    number_of_groups: usize,
    probability_to_generate_garbage_between_groups: u64,
    max_probability_to_generate_failed_group: u64,
    max_probability_per_element_to_generate_garbage: u64,
    max_garbage_element_between_groups: u64,
    max_element_per_group_number: usize,
    debug: bool,
}

impl SeederConfig {
    /// Every bound the generator draws from is at least one, so that no
    /// draw is over an empty range.
    pub closed spec fn wf(&self) -> bool {
        &&& self.max_probability_to_generate_failed_group >= 1
        &&& self.max_probability_per_element_to_generate_garbage >= 1
        &&& self.max_garbage_element_between_groups >= 1
        &&& self.max_element_per_group_number >= 1
    }

    /// How many groups this configuration generates.
    pub closed spec fn groups(&self) -> usize {
        self.number_of_groups
    }

    /// Assemble a configuration.
    pub fn new(
        number_of_groups: usize,
        probability_to_generate_garbage_between_groups: u64,
        max_probability_to_generate_failed_group: u64,
        max_probability_per_element_to_generate_garbage: u64,
        max_garbage_element_between_groups: u64,
        max_element_per_group_number: usize,
        debug: bool,
    ) -> (r: SeederConfig)
        requires
            max_probability_to_generate_failed_group >= 1,
            max_probability_per_element_to_generate_garbage >= 1,
            max_garbage_element_between_groups >= 1,
            max_element_per_group_number >= 1,
        ensures
            r.wf(),
            r.groups() == number_of_groups,
    {
        SeederConfig {
            number_of_groups,
            probability_to_generate_garbage_between_groups,
            max_probability_to_generate_failed_group,
            max_probability_per_element_to_generate_garbage,
            max_garbage_element_between_groups,
            max_element_per_group_number,
            debug,
        }
    }

    /// Generate a byte stream and the records a parser should pull out of
    /// it; see [`generate_groups_data`].
    pub fn generate(&self, rng: &mut rand_chacha::ChaCha8Rng) -> (r: (Vec<u8>, Vec<Vec<u8>>))
        requires
            self.wf(),
        ensures
            r.1@.len() <= self.groups(),
            forall|i: int| 0 <= i < r.1@.len() ==> expected_from_clean_group(#[trigger] r.1@[i]@),
    {
        generate_groups_data(
            rng,
            self.number_of_groups,
            self.probability_to_generate_garbage_between_groups,
            self.max_probability_to_generate_failed_group,
            self.max_probability_per_element_to_generate_garbage,
            self.max_garbage_element_between_groups,
            self.max_element_per_group_number,
        )
    }
}

} // verus!
