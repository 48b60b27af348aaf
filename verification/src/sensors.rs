use vstd::prelude::*;

use crate::text::{
    join_spec, lemma_split_concat, lemma_split_join, lemma_split_single, split_on, split_spec, str_eq,
    trim, trim_end, trim_end_spec, trim_spec, views,
};

verus! {

broadcast use vstd::string::group_string_axioms;

/// How many values each sensor line of the bridge carries.
pub const SENSOR_COUNT: usize = 9;

/// Positions of the values in a sensor line.
pub const CPU_TEMPERATURE: usize = 0;

pub const CPU_POWER: usize = 1;

pub const CPU_USAGE: usize = 2;

pub const CPU_FAN: usize = 3;

pub const GPU_TEMPERATURE: usize = 4;

pub const GPU_POWER: usize = 5;

pub const GPU_USAGE: usize = 6;

pub const GPU_CLOCK: usize = 7;

pub const CPU_CLOCK: usize = 8;

/// One sensor value as the screen uses it. The bridge reports a decimal
/// number; `bits` is its single-precision bit pattern (the screen shows
/// temperatures from it), `word` is the number rounded to the nearest
/// integer and clamped into `0..=65535`, and `percent` the same clamped
/// into `0..=100`.
#[derive(Clone, Copy, Debug, PartialEq, Eq, Structural)]
pub struct Reading {
    pub bits: u32,
    pub word: u16,
    pub percent: u8,
}

/// The nine values of one sensor line, each absent when the bridge could
/// not read it.
pub type Sensors = [Option<Reading>; 9];

/// The names of the machine's processor, graphics card and memory.
pub struct MachineInfo {
    pub cpu: String,
    pub gpu: String,
    pub memory: String,
}

/// The text that stands for a name the bridge did not report.
pub open spec fn unavailable_spec() -> Seq<char> {
    "Unavailable"@
}

impl Default for MachineInfo {
    fn default() -> (info: Self)
        ensures
            info.cpu@ == unavailable_spec(),
            info.gpu@ == unavailable_spec(),
            info.memory@ == unavailable_spec(),
    {
        MachineInfo {
            cpu: "Unavailable".to_owned(),
            gpu: "Unavailable".to_owned(),
            memory: "Unavailable".to_owned(),
        }
    }
}

/// Whether the GPU page has what it needs: temperature, usage and clock.
pub open spec fn gpu_available_spec(values: Seq<Option<Reading>>) -> bool {
    &&& values[GPU_TEMPERATURE as int] is Some
    &&& values[GPU_USAGE as int] is Some
    &&& values[GPU_CLOCK as int] is Some
}

pub fn gpu_available(values: &Sensors) -> (available: bool)
    ensures
        available == gpu_available_spec(values@),
{
    values[GPU_TEMPERATURE].is_some() && values[GPU_USAGE].is_some()
        && values[GPU_CLOCK].is_some()
}

/// The marker that opens a machine information line.
pub open spec fn info_prefix_spec() -> Seq<char> {
    "INFO\t"@
}

/// The processor, graphics card and memory names of a machine information
/// line: the marker, then exactly three tab-separated fields.
pub open spec fn info_fields_spec(line: Seq<char>) -> Option<(Seq<char>, Seq<char>, Seq<char>)> {
    let prefix = info_prefix_spec();
    if line.len() >= prefix.len() && line.take(prefix.len() as int) == prefix {
        let fields = split_spec(line.skip(prefix.len() as int), '\t');
        if fields.len() == 3 {
            Some((fields[0], fields[1], fields[2]))
        } else {
            None
        }
    } else {
        None
    }
}

/// The three names that a machine information line carries, or `None` for
/// any other line.
pub fn parse_info<'a>(line: &'a str) -> (fields: Option<(&'a str, &'a str, &'a str)>)
    ensures
        match fields {
            Some((cpu, gpu, memory)) => info_fields_spec(line@) == Some((cpu@, gpu@, memory@)),
            None => info_fields_spec(line@) is None,
        },
{
    proof {
        reveal_strlit("INFO\t");
    }
    let n: usize = line.unicode_len();
    if n < 5 {
        return None;
    }
    if !str_eq(line.substring_char(0, 5), "INFO\t") {
        return None;
    }
    assert(line@.take(5) =~= line@.subrange(0, 5));
    let rest = line.substring_char(5, n);
    assert(rest@ =~= line@.skip(5));
    let parts = split_on(rest, '\t');
    if parts.len() != 3 {
        return None;
    }
    assert(views(parts@)[0] == parts@[0]@);
    assert(views(parts@)[1] == parts@[1]@);
    assert(views(parts@)[2] == parts@[2]@);
    Some((parts[0], parts[1], parts[2]))
}

/// The machine information that the bridge's `--info` output gives, or
/// every name unavailable when the output is no information line.
pub fn machine_info_from_output(output: &str) -> (info: MachineInfo)
    ensures
        match info_fields_spec(trim_end_spec(output@)) {
            Some((cpu, gpu, memory)) => info.cpu@ == cpu && info.gpu@ == gpu && info.memory@
                == memory,
            None => info.cpu@ == unavailable_spec() && info.gpu@ == unavailable_spec()
                && info.memory@ == unavailable_spec(),
        },
{
    match parse_info(trim_end(output)) {
        Some((cpu, gpu, memory)) => MachineInfo {
            cpu: cpu.to_owned(),
            gpu: gpu.to_owned(),
            memory: memory.to_owned(),
        },
        None => MachineInfo::default(),
    }
}

/// The value fields of a sensor line: the line without surrounding
/// whitespace, split at commas.
pub open spec fn sample_fields_spec(line: Seq<char>) -> Seq<Seq<char>> {
    split_spec(trim_spec(line), ',')
}

/// The nine value fields of a sensor line, or `None` when it does not hold
/// exactly nine.
pub fn sample_fields<'a>(line: &'a str) -> (fields: Option<Vec<&'a str>>)
    ensures
        match fields {
            Some(fields) => sample_fields_spec(line@).len() == SENSOR_COUNT && views(fields@)
                == sample_fields_spec(line@),
            None => sample_fields_spec(line@).len() != SENSOR_COUNT,
        },
{
    let fields = split_on(trim(line), ',');
    if fields.len() == SENSOR_COUNT {
        Some(fields)
    } else {
        None
    }
}

/// Whether `s` holds no `c`.
pub open spec fn free_of(s: Seq<char>, c: char) -> bool {
    forall|j: int| 0 <= j < s.len() ==> #[trigger] s[j] != c
}

/// A machine information line is exactly the marker followed by the three
/// names separated by tabs, none of which holds a tab.
pub proof fn lemma_info_line_format(
    line: Seq<char>,
    cpu: Seq<char>,
    gpu: Seq<char>,
    memory: Seq<char>,
)
    ensures
        info_fields_spec(line) == Some((cpu, gpu, memory)) <==> {
            &&& line == info_prefix_spec() + cpu + seq!['\t'] + gpu + seq!['\t'] + memory
            &&& free_of(cpu, '\t')
            &&& free_of(gpu, '\t')
            &&& free_of(memory, '\t')
        },
{
    reveal_strlit("INFO\t");
    let prefix = info_prefix_spec();
    let tail = cpu.push('\t') + (gpu.push('\t') + memory);
    let built = prefix + cpu + seq!['\t'] + gpu + seq!['\t'] + memory;
    assert(built =~= prefix + tail);
    if info_fields_spec(line) == Some((cpu, gpu, memory)) {
        let rest = line.skip(5);
        let fields = split_spec(rest, '\t');
        lemma_split_join(rest, '\t');
        assert(fields =~= seq![cpu, gpu, memory]);
        assert(fields.drop_last() =~= seq![cpu, gpu]);
        assert(fields.drop_last().drop_last() =~= seq![cpu]);
        assert(join_spec(fields.drop_last().drop_last(), '\t') == cpu);
        assert(join_spec(fields.drop_last(), '\t') == cpu.push('\t') + gpu);
        assert(join_spec(fields, '\t') == (cpu.push('\t') + gpu).push('\t') + memory);
        assert(join_spec(fields, '\t') =~= tail);
        assert(line =~= line.take(5) + rest);
        assert(line =~= built);
        assert forall|j: int| 0 <= j < cpu.len() implies #[trigger] cpu[j] != '\t' by {
            assert(fields[0][j] != '\t');
        }
        assert forall|j: int| 0 <= j < gpu.len() implies #[trigger] gpu[j] != '\t' by {
            assert(fields[1][j] != '\t');
        }
        assert forall|j: int| 0 <= j < memory.len() implies #[trigger] memory[j] != '\t' by {
            assert(fields[2][j] != '\t');
        }
    }
    if line == built && free_of(cpu, '\t') && free_of(gpu, '\t') && free_of(memory, '\t') {
        assert(line.take(5) =~= prefix);
        assert(line.skip(5) =~= tail);
        lemma_split_concat(cpu, gpu.push('\t') + memory, '\t');
        lemma_split_concat(gpu, memory, '\t');
        lemma_split_single(cpu, '\t');
        lemma_split_single(gpu, '\t');
        lemma_split_single(memory, '\t');
        assert(split_spec(tail, '\t') =~= seq![cpu, gpu, memory]);
    }
}

/// A sensor line's fields are the line, trimmed, cut at every comma: joined
/// again with commas they give the trimmed line, and none holds a comma.
pub proof fn lemma_sample_fields_shape(line: Seq<char>)
    ensures
        join_spec(sample_fields_spec(line), ',') == trim_spec(line),
        forall|i: int, j: int|
            0 <= i < sample_fields_spec(line).len() && 0 <= j < sample_fields_spec(line)[i].len()
                ==> #[trigger] sample_fields_spec(line)[i][j] != ',',
{
    lemma_split_join(trim_spec(line), ',');
}

} // verus!
