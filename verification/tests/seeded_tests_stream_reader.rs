use rand::SeedableRng;
use rand_chacha::ChaCha8Rng;

use stream_parser::buffers::preallocated::BufferPreallocated;
use stream_parser::builder::StreamParserBuilder;
use stream_parser::parsers::{parse_data, start_group_parenthesis};
use stream_parser::seeder::SeederConfig;
use stream_parser::source::SliceReader;
use stream_parser::{StartGroupByParser, StreamParserError};

fn run_seeded_reader(seed: u64, groups: usize, max_elements: usize) {
    let mut rng = ChaCha8Rng::seed_from_u64(seed);

    let config = SeederConfig::new(groups, 30, 2, 4, 4, max_elements, false);
    let (data_to_parse, expected) = config.generate(&mut rng);

    let work_buffer = BufferPreallocated::new(1_048_576).with_name("work buffer");

    let heuristic = StartGroupByParser {
        parser: start_group_parenthesis,
        start_character: b"(",
    };

    let mut stream = StreamParserBuilder::with_heuristic(heuristic)
        .work_buffer(work_buffer)
        .parser(parse_data)
        .reader(SliceReader::new(data_to_parse.as_slice()))
        .build()
        .unwrap()
        .stream();

    let mut result: Vec<Vec<u8>> = Vec::new();
    while let Some(x) = stream.next() {
        match x {
            Ok(data) => result.push(data),
            Err(error @ StreamParserError::ExceededBufferUnknownSize { .. }) => {
                println!("Unrecoverable Error {:?}", error);
                break;
            }
            Err(_err) => {}
        }
    }
    assert_eq!(expected, result);
}

#[test]
fn failed_seed_585186476717703168() {
    run_seeded_reader(585186476717703168, 140, 10);
}

#[test]
fn failed_seed_585186476717703168x10() {
    run_seeded_reader(585186476717703168, 1400, 1000);
}

#[test]
fn failed_seed_42949672960() {
    run_seeded_reader(42949672960, 1400, 1000);
}
