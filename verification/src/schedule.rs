//! The pass schedule of the bitonic merge sort that runs on the GPU.
//!
//! The sort is a sorting network of `SORT_STAGES` stages. Stage `i`
//! (counted from 1) consists of `i` passes; pass `j` of stage `i` (counted
//! from 0) runs with `order_of_pass = i - j` and `order_of_stage = i`.
//! Each pass reads one of two storage buffers and writes the other, so the
//! `direction` of the passes alternates, starting at 0. All passes of one
//! stage go into one command encoder, which is submitted at the end of the
//! stage. After the last pass the sorted keys stand in the buffer that the
//! final direction names.
use vstd::prelude::*;
use vstd::endian::{endianness, Endian};
use crate::picture::{big_endian_words, little_endian_words, native_endian_words};

verus! {

/// Number of merge stages: the network sorts `2^11 = 2048` keys.
pub const SORT_STAGES: u32 = 11;

/// Number of keys that the sort orders (`2^SORT_STAGES`).
pub const SORT_KEYS: u32 = 2048;

/// Size in bytes of each of the two storage buffers: every key is a pair of
/// `u32` words.
pub const SORT_BUFFER_BYTES: u64 = 16384;

/// Workgroups dispatched by each pass.
pub const SORT_WORKGROUPS: u32 = 32;

/// The uniform block that one pass of the sort shader reads.
#[derive(Clone, Copy, Debug, PartialEq, Eq, Structural)]
pub struct MergeSortParams {
    /// `log2` of the compare distance plus one: `i - j` for pass `j` of stage `i`.
    pub order_of_pass: u32,
    /// 0: the pass reads the input buffer and writes the second one; 1: back.
    pub direction: u32,
    /// The stage, counted from 1.
    pub order_of_stage: u32,
}

impl MergeSortParams {
    /// The three words of the uniform block, in field order.
    pub open spec fn words(&self) -> Seq<u32> {
        seq![self.order_of_pass, self.direction, self.order_of_stage]
    }

    /// The contents of the uniform buffer of one pass: the three fields as
    /// `u32` words in the machine's byte order, 12 bytes in all.
    pub fn uniform_bytes(&self) -> (bytes: Vec<u8>)
        ensures
            bytes@.len() == 12,
            bytes@ == little_endian_bytes(self.words()) || bytes@ == big_endian_bytes(
                self.words(),
            ),
            bytes@ == native_endian_bytes(self.words()),
    {
        let words: [u32; 3] = [self.order_of_pass, self.direction, self.order_of_stage];
        let ghost w = words@;
        assert(w =~= self.words());
        words_as_bytes(words.as_slice())
    }
}

/// Byte `k % 4` (from the least significant) of word `k / 4`, for every `k`:
/// the words written out least significant byte first.
pub open spec fn little_endian_bytes(words: Seq<u32>) -> Seq<u8> {
    Seq::new(4 * words.len(), |k: int| ((words[k / 4] >> (8 * (k % 4)) as u32) & 0xff) as u8)
}

/// The words written out most significant byte first.
pub open spec fn big_endian_bytes(words: Seq<u32>) -> Seq<u8> {
    Seq::new(
        4 * words.len(),
        |k: int| ((words[k / 4] >> (8 * (3 - k % 4)) as u32) & 0xff) as u8,
    )
}

/// The words written out in the byte order of the machine that runs the code
/// (vstd's `endianness()`), the same order for every call.
pub open spec fn native_endian_bytes(words: Seq<u32>) -> Seq<u8> {
    match endianness() {
        Endian::Little => little_endian_bytes(words),
        Endian::Big => big_endian_bytes(words),
    }
}

/// `bytemuck::cast_slice::<u32, u8>`, copied into a `Vec`. The cast
/// reinterprets the words' memory, so the result has four bytes per word in
/// the machine's byte order (`endianness()`: little-endian or big-endian,
/// the only two that Rust's targets use, and the same for every call). Which
/// of the two the machine uses is left open. The cast cannot fail
/// for this pair of types (a `u8` has size and alignment 1).
#[verifier::external_body]
fn words_as_bytes(words: &[u32]) -> (bytes: Vec<u8>)
    ensures
        bytes@ == little_endian_bytes(words@) || bytes@ == big_endian_bytes(words@),
        bytes@ == native_endian_bytes(words@),
{
    bytemuck::cast_slice::<u32, u8>(words).to_vec()
}

/// Which of the two storage buffers holds the data.
#[derive(Clone, Copy, Debug, PartialEq, Eq, Structural)]
pub enum SortBuffer {
    /// The buffer that was handed to the sort.
    List,
    /// The buffer that the sort allocates itself.
    Second,
}

/// `1 + 2 + ... + n`: the number of passes of the first `n` stages.
pub open spec fn triangle(n: nat) -> nat
    decreases n,
{
    if n == 0 {
        0
    } else {
        n + triangle((n - 1) as nat)
    }
}

/// Position of pass `j` of stage `stage` in the whole run of passes.
pub open spec fn pass_number(stage: nat, j: nat) -> nat {
    triangle((stage - 1) as nat) + j
}

/// The parameters of pass `j` (from 0) of stage `stage` (from 1).
pub open spec fn pass_params(stage: nat, j: nat) -> MergeSortParams {
    MergeSortParams {
        order_of_pass: (stage - j) as u32,
        direction: (pass_number(stage, j) % 2) as u32,
        order_of_stage: stage as u32,
    }
}

/// The buffer that is returned for a final direction.
pub open spec fn spec_result_buffer(direction: u32) -> SortBuffer {
    if direction == 0 {
        SortBuffer::List
    } else {
        SortBuffer::Second
    }
}

/// The buffer that a pass with the given direction writes.
pub open spec fn pass_destination(direction: u32) -> SortBuffer {
    if direction == 0 {
        SortBuffer::Second
    } else {
        SortBuffer::List
    }
}

/// The buffer that holds the data after `n` passes, when it starts in the
/// input buffer and every pass moves it to the other one.
pub open spec fn holder_after(n: nat) -> SortBuffer {
    if n % 2 == 0 {
        SortBuffer::List
    } else {
        SortBuffer::Second
    }
}

/// What the whole sort does, stage by stage.
pub struct SortPlan {
    /// `stages[s]` holds the parameters of the passes of stage `s + 1`, in order.
    pub stages: Vec<Vec<MergeSortParams>>,
    /// The direction after the last pass.
    pub final_direction: u32,
}

impl SortPlan {
    /// The plan of a sort of `stages` stages is exactly the bitonic schedule.
    pub open spec fn is_schedule(&self, stages: nat) -> bool {
        &&& self.stages@.len() == stages
        &&& forall|s: int| 0 <= s < stages ==> (#[trigger] self.stages@[s])@.len() == s + 1
        &&& forall|s: int, j: int|
            0 <= s < stages && 0 <= j <= s ==> #[trigger] self.stages@[s]@[j] == pass_params(
                (s + 1) as nat,
                j as nat,
            )
        &&& self.final_direction == triangle(stages) % 2
    }

    /// The buffer that holds the sorted keys once every pass has run.
    pub fn result_buffer(&self) -> (r: SortBuffer)
        ensures
            r == spec_result_buffer(self.final_direction),
    {
        result_buffer(self.final_direction)
    }
}

/// `match direction { 0 => list, _ => second }`: the buffer that is
/// returned when the passes end with `direction`.
pub fn result_buffer(direction: u32) -> (r: SortBuffer)
    ensures
        r == spec_result_buffer(direction),
{
    if direction == 0 {
        SortBuffer::List
    } else {
        SortBuffer::Second
    }
}

/// The closed form of the number of passes: `2 * triangle(n) == n * (n + 1)`.
pub proof fn lemma_triangle_closed_form(n: nat)
    ensures
        2 * triangle(n) == n * (n + 1),
    decreases n,
{
    if n > 0 {
        let m = (n - 1) as nat;
        lemma_triangle_closed_form(m);
        assert(triangle(n) == n + triangle(m));
        assert(n * (n + 1) == m * (m + 1) + 2 * n) by (nonlinear_arith)
            requires
                m + 1 == n,
        ;
    } else {
        assert(n * (n + 1) == 0) by (nonlinear_arith)
            requires
                n == 0,
        ;
    }
}

/// Builds the schedule of a sort of `stages` stages: for `i` in `1..=stages`
/// and `j` in `0..i`, the pass `(i - j, direction, i)`, where `direction`
/// starts at 0 and flips after every pass.
pub fn sort_plan(stages: u32) -> (plan: SortPlan)
    requires
        stages < u32::MAX,
    ensures
        plan.is_schedule(stages as nat),
{
    let mut direction: u32 = 0;
    let mut plan_stages: Vec<Vec<MergeSortParams>> = Vec::new();
    let mut i: u32 = 1;
    while i <= stages
        invariant
            1 <= i <= stages + 1,
            stages < u32::MAX,
            plan_stages@.len() == i - 1,
            direction == triangle((i - 1) as nat) % 2,
            forall|s: int| 0 <= s < i - 1 ==> (#[trigger] plan_stages@[s])@.len() == s + 1,
            forall|s: int, j: int|
                0 <= s < i - 1 && 0 <= j <= s ==> #[trigger] plan_stages@[s]@[j] == pass_params(
                    (s + 1) as nat,
                    j as nat,
                ),
        decreases stages + 1 - i,
    {
        let mut passes: Vec<MergeSortParams> = Vec::new();
        let mut j: u32 = 0;
        while j < i
            invariant
                1 <= i <= stages,
                j <= i,
                passes@.len() == j,
                direction == (triangle((i - 1) as nat) + j) % 2,
                forall|k: int| 0 <= k < j ==> #[trigger] passes@[k] == pass_params(i as nat, k as nat),
            decreases i - j,
        {
            passes.push(MergeSortParams { order_of_pass: i - j, direction, order_of_stage: i });
            direction = 1 - direction;
            j = j + 1;
        }
        proof {
            assert(triangle(i as nat) == i + triangle((i - 1) as nat));
        }
        plan_stages.push(passes);
        i = i + 1;
    }
    SortPlan { stages: plan_stages, final_direction: direction }
}

/// The plan of the sort that the GPU runs: `SORT_STAGES` stages.
pub fn merge_sort_plan() -> (plan: SortPlan)
    ensures
        plan.is_schedule(SORT_STAGES as nat),
        plan.final_direction == 0,
        plan.result_buffer_spec() == SortBuffer::List,
{
    proof {
        lemma_eleven_stages_end_in_list();
    }
    sort_plan(SORT_STAGES)
}

impl SortPlan {
    /// The buffer that holds the sorted keys, as a spec value.
    pub open spec fn result_buffer_spec(&self) -> SortBuffer {
        spec_result_buffer(self.final_direction)
    }
}

/// Successive passes flip the direction: inside a stage, and from the last
/// pass of one stage to the first pass of the next. The very first pass has
/// direction 0.
pub proof fn lemma_directions_alternate(stage: nat, j: nat)
    requires
        stage >= 1,
        j < stage,
    ensures
        pass_params(1, 0).direction == 0,
        j + 1 < stage ==> pass_params(stage, j + 1).direction == 1 - pass_params(
            stage,
            j,
        ).direction,
        j + 1 == stage ==> pass_params(stage + 1, 0).direction == 1 - pass_params(
            stage,
            j,
        ).direction,
{
    assert(triangle(0) == 0);
    assert(triangle(stage) == stage + triangle((stage - 1) as nat));
}

/// Every stage runs its passes from the widest compare distance down to the
/// narrowest: `order_of_pass` goes from the stage number down to 1, one step
/// at a time, and `order_of_stage` names the stage.
pub proof fn lemma_stage_orders(stage: nat, j: nat)
    requires
        1 <= stage < u32::MAX,
        j < stage,
    ensures
        pass_params(stage, 0).order_of_pass == stage,
        pass_params(stage, (stage - 1) as nat).order_of_pass == 1,
        j + 1 < stage ==> pass_params(stage, j + 1).order_of_pass + 1 == pass_params(
            stage,
            j,
        ).order_of_pass,
        pass_params(stage, j).order_of_stage == stage,
        1 <= pass_params(stage, j).order_of_pass <= stage,
{
}

/// The buffer that the sort returns is the one that its last pass wrote, and
/// it is the one that holds the data after all passes: the data starts in
/// the input buffer and every pass moves it to the other one.
pub proof fn lemma_result_is_last_destination(stages: nat)
    requires
        stages >= 1,
    ensures
        spec_result_buffer((triangle(stages) % 2) as u32) == pass_destination(
            pass_params(stages, (stages - 1) as nat).direction,
        ),
        spec_result_buffer((triangle(stages) % 2) as u32) == holder_after(triangle(stages)),
{
    assert(triangle(stages) == stages + triangle((stages - 1) as nat));
}

/// A sort of `n` stages ends in the input buffer exactly when `n % 4` is 0
/// or 3, that is when its number of passes is even.
pub proof fn lemma_final_direction_by_stages(n: nat)
    ensures
        (triangle(n) % 2 == 0) <==> (n % 4 == 0 || n % 4 == 3),
    decreases n,
{
    if n > 0 {
        lemma_final_direction_by_stages((n - 1) as nat);
    }
}

/// With `SORT_STAGES` stages the sort runs 66 passes and hands back the
/// buffer it was given.
pub proof fn lemma_eleven_stages_end_in_list()
    ensures
        triangle(SORT_STAGES as nat) == 66,
        spec_result_buffer((triangle(SORT_STAGES as nat) % 2) as u32) == SortBuffer::List,
{
    reveal_with_fuel(triangle, 12);
}

/// Every uniform block is written in one and the same byte order, whatever
/// its fields: either every block little-endian or every block big-endian.
pub proof fn lemma_one_byte_order(p: MergeSortParams, q: MergeSortParams)
    ensures
        (native_endian_bytes(p.words()) == little_endian_bytes(p.words())
            && native_endian_bytes(q.words()) == little_endian_bytes(q.words()))
            || (native_endian_bytes(p.words()) == big_endian_bytes(p.words())
            && native_endian_bytes(q.words()) == big_endian_bytes(q.words())),
{
}

/// The four bytes of a word, least significant first, add up to the word.
proof fn lemma_word_from_bytes(w: u32)
    ensures
        (((w >> 0u32) & 0xff) as u8) as int + 256 * (((w >> 8u32) & 0xff) as u8) as int + 65536 * (((
        w >> 16u32) & 0xff) as u8) as int + 16777216 * (((w >> 24u32) & 0xff) as u8) as int == w,
{
    assert((((w >> 0u32) & 0xff) as u8) as u32 == (w >> 0u32) & 0xff) by (bit_vector);
    assert((((w >> 8u32) & 0xff) as u8) as u32 == (w >> 8u32) & 0xff) by (bit_vector);
    assert((((w >> 16u32) & 0xff) as u8) as u32 == (w >> 16u32) & 0xff) by (bit_vector);
    assert((((w >> 24u32) & 0xff) as u8) as u32 == (w >> 24u32) & 0xff) by (bit_vector);
    assert(((w >> 0u32) & 0xff) + 256 * ((w >> 8u32) & 0xff) + 65536 * ((w >> 16u32) & 0xff)
        + 16777216 * ((w >> 24u32) & 0xff) == w) by (bit_vector);
}

/// Reading the bytes of the uniform words back as words gives the words
/// again, in either byte order, and so in the machine's: the encoding of the
/// sort's parameters and the decoding of a key buffer agree.
pub proof fn lemma_bytes_round_trip(words: Seq<u32>)
    ensures
        little_endian_words(little_endian_bytes(words)) == words,
        big_endian_words(big_endian_bytes(words)) == words,
        native_endian_words(native_endian_bytes(words)) == words,
{
    let le = little_endian_bytes(words);
    let be = big_endian_bytes(words);
    assert forall|i: int| 0 <= i < words.len() implies #[trigger] little_endian_words(le)[i]
        == words[i] && big_endian_words(be)[i] == words[i] by {
        assert((4 * i) / 4 == i && (4 * i) % 4 == 0);
        assert((4 * i + 1) / 4 == i && (4 * i + 1) % 4 == 1);
        assert((4 * i + 2) / 4 == i && (4 * i + 2) % 4 == 2);
        assert((4 * i + 3) / 4 == i && (4 * i + 3) % 4 == 3);
        lemma_word_from_bytes(words[i]);
    }
    assert(little_endian_words(le) =~= words);
    assert(big_endian_words(be) =~= words);
}

} // verus!
