use rand::SeedableRng;
use rand_chacha::ChaCha8Rng;

use stream_parser::buffers::preallocated::BufferPreallocated;
use stream_parser::parsers::{parse_data, start_group_parenthesis};
use stream_parser::seeder::SeederConfig;
use stream_parser::source::Source;
use stream_parser::traits::Buffer;
use stream_parser::{StartGroupByParser, StreamParserError};

pub fn parse<B: Buffer>(source: Source, work_buffer: B) -> Result<Vec<Vec<u8>>, StreamParserError> {
    let parser = parse_data;
    let search_group_heuristic = StartGroupByParser {
        parser: start_group_parenthesis,
        start_character: b"(",
    };
    let mut stream = stream_parser::stream_parsers::sync_iterator::StreamParser::new(
        source,
        work_buffer,
        parser,
        search_group_heuristic,
    );
    let mut result: Vec<Vec<u8>> = Vec::new();
    while let Some(x) = stream.next() {
        if let Ok(data) = x {
            result.push(data);
        }
    }
    Ok(result)
}

fn run_seeded(seed: u64) {
    let mut rng = ChaCha8Rng::seed_from_u64(seed);

    let config = SeederConfig::new(1400, 30, 2, 4, 4, 1000, false);
    let (data_to_parse, expected) = config.generate(&mut rng);

    let source = Source::new(&data_to_parse).with_chunk_size(4096);
    let work_buffer = BufferPreallocated::new(1_048_576).with_name("work buffer");
    let result = parse(source, work_buffer);
    assert_eq!(Ok(expected), result);
}

#[test]
fn seeded_tests_stream_failed_seed_15987178197214890543() {
    run_seeded(15987178197214890543);
}

#[test]
fn seeded_tests_stream_failed_seed_3386706919782654474() {
    run_seeded(3386706919782654474);
}

#[test]
fn seeded_tests_stream_failed_seed_720586935495819268() {
    run_seeded(720586935495819268);
}
