use rand::SeedableRng;
use rand_chacha::ChaCha8Rng;

use stream_parser::buffers::preallocated::BufferPreallocated;
use stream_parser::builder::StreamParserBuilder;
use stream_parser::parsers::{parse_data, start_group_parenthesis};
use stream_parser::seeder::SeederConfig;
use stream_parser::source::Source;
use stream_parser::StartGroupByParser;

fn run_seeded(seed: u64) {
    let mut rng = ChaCha8Rng::seed_from_u64(seed);

    let config = SeederConfig::new(1400, 30, 2, 4, 4, 1000, false);
    let (data_to_parse, expected) = config.generate(&mut rng);

    let source = Source::new(&data_to_parse).with_chunk_size(4096);
    let work_buffer = BufferPreallocated::new(1_048_576).with_name("work buffer");

    let heuristic = StartGroupByParser {
        parser: start_group_parenthesis,
        start_character: b"(",
    };

    let mut stream = StreamParserBuilder::with_heuristic(heuristic)
        .work_buffer(work_buffer)
        .parser(parse_data)
        .iterator(source)
        .build()
        .unwrap()
        .stream();

    let mut result: Vec<Vec<u8>> = Vec::new();
    while let Some(x) = stream.next() {
        if let Ok(data) = x {
            result.push(data);
        }
    }
    assert_eq!(expected, result);
}

#[test]
fn seeded_tests_stream_iterator_failed_seed_15987178197214890543() {
    run_seeded(15987178197214890543);
}

#[test]
fn seeded_tests_stream_iterator_failed_seed_3386706919782654474() {
    run_seeded(3386706919782654474);
}

#[test]
fn seeded_tests_stream_iterator_failed_seed_720586935495819268() {
    run_seeded(720586935495819268);
}
