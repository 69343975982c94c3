use stream_parser::buffers::preallocated::BufferPreallocated;
use stream_parser::builder::StreamParserBuilder;
use stream_parser::parsers::{parse_data, start_group_parenthesis};
use stream_parser::source::{SliceReader, Source};
use stream_parser::{StartGroupByParser, StreamParserError};

fn collect_with_iterator(data: &[u8], chunk_size: usize, capacity: usize) -> Vec<Result<Vec<u8>, StreamParserError>> {
    let source = Source::new(data).with_chunk_size(chunk_size);
    let work_buffer = BufferPreallocated::new(capacity).with_name("work buffer");
    let heuristic = StartGroupByParser {
        parser: start_group_parenthesis,
        start_character: b"(",
    };
    let mut stream = stream_parser::stream_parsers::sync_iterator::StreamParser::new(
        source,
        work_buffer,
        parse_data,
        heuristic,
    );
    let mut items = Vec::new();
    while let Some(item) = stream.next() {
        items.push(item);
    }
    items
}

fn collect_with_reader(data: &[u8], capacity: usize) -> Vec<Result<Vec<u8>, StreamParserError>> {
    let reader = SliceReader::new(data);
    let work_buffer = BufferPreallocated::new(capacity).with_name("work buffer");
    let heuristic = StartGroupByParser {
        parser: start_group_parenthesis,
        start_character: b"(",
    };
    let mut stream = stream_parser::stream_parsers::sync_reader::StreamParser::new(
        reader,
        work_buffer,
        parse_data,
        heuristic,
    );
    let mut items = Vec::new();
    while let Some(item) = stream.next() {
        // A buffer or I/O error is fatal: the caller stops pulling.
        let fatal = match &item {
            Err(e) => e.is_fatal(),
            Ok(_) => false,
        };
        items.push(item);
        if fatal {
            break;
        }
    }
    items
}

#[test]
fn scenario_noise_then_two_groups() {
    let items = collect_with_iterator(b"noise(1,4,3,4)###(2,5)", 4, 20);
    let records: Vec<Vec<u8>> = items
        .iter()
        .filter_map(|x| x.as_ref().ok().cloned())
        .collect();
    assert_eq!(records, vec![vec![1, 4, 3, 4], vec![2, 5]]);
    // No errors at all: the noise is skipped by the heuristic, not parsed.
    assert!(items.iter().all(|x| x.is_ok()));
}

#[test]
fn scenario_malformed_group_yields_one_error() {
    let items = collect_with_iterator(b"(1,2,a,4)(5,6)", 4, 20);
    assert_eq!(items.len(), 2);
    match &items[0] {
        Err(StreamParserError::ParseFailure { .. }) => {}
        other => panic!("expected a parse failure, got {:?}", other),
    }
    assert_eq!(items[1], Ok(vec![5, 6]));
}

#[test]
fn chunk_size_independence() {
    let data = b"noise(1,4,3,4)###(2,5)(1,88,56,42,78,5)##(9)";
    let reference: Vec<Vec<u8>> = collect_with_iterator(data, 4, 64)
        .into_iter()
        .filter_map(|x| x.ok())
        .collect();
    assert_eq!(
        reference,
        vec![vec![1, 4, 3, 4], vec![2, 5], vec![1, 88, 56, 42, 78, 5], vec![9]]
    );
    for chunk_size in [1usize, 2, 3, 5, 20, 4096] {
        let records: Vec<Vec<u8>> = collect_with_iterator(data, chunk_size, 64)
            .into_iter()
            .filter_map(|x| x.ok())
            .collect();
        assert_eq!(reference, records, "chunk size {}", chunk_size);
    }
}

#[test]
fn reader_iterator_equivalence() {
    let data = b"noise(1,4,3,4)###(2,5)(1,88,56,42,78,5)";
    let from_iterator: Vec<Vec<u8>> = collect_with_iterator(data, 4, 64)
        .into_iter()
        .filter_map(|x| x.ok())
        .collect();
    let from_reader: Vec<Vec<u8>> = collect_with_reader(data, 64)
        .into_iter()
        .filter_map(|x| x.ok())
        .collect();
    assert_eq!(from_iterator, from_reader);
    assert_eq!(
        from_iterator,
        vec![vec![1, 4, 3, 4], vec![2, 5], vec![1, 88, 56, 42, 78, 5]]
    );
}

#[test]
fn reader_with_too_small_buffer_is_fatal() {
    // A record of six numbers cannot fit in a buffer of eight bytes.
    let items = collect_with_reader(b"(1,88,56,42,78,5)", 8);
    let last = items.last().unwrap();
    match last {
        Err(StreamParserError::ExceededBufferUnknownSize { buffer_size }) => {
            assert_eq!(*buffer_size, 8);
        }
        other => panic!("expected an unknown-size overflow, got {:?}", other),
    }
}

#[test]
fn test_builder() {
    let data = b"noise(1,4,3,4)###(2,5)".as_slice();
    let it = Source::new(data).with_chunk_size(4);
    let work_buffer = BufferPreallocated::new(20);
    let heuristic = StartGroupByParser {
        parser: start_group_parenthesis,
        start_character: b"(",
    };
    let mut stream = StreamParserBuilder::with_heuristic(heuristic)
        .work_buffer(work_buffer)
        .parser(parse_data)
        .iterator(it)
        .build()
        .unwrap()
        .stream();

    let mut records: Vec<Vec<u8>> = Vec::new();
    while let Some(x) = stream.next() {
        match x {
            Ok(data) => {
                println!("Data : {:?}", data);
                records.push(data);
            }
            Err(err) => println!("Error: {:?}", err),
        }
    }
    assert_eq!(records, vec![vec![1, 4, 3, 4], vec![2, 5]]);

    println!("----------------------------------------");
    let work_buffer = BufferPreallocated::new(20);
    let heuristic = StartGroupByParser {
        parser: start_group_parenthesis,
        start_character: b"(",
    };
    let mut stream = StreamParserBuilder::with_heuristic(heuristic)
        .work_buffer(work_buffer)
        .parser(parse_data)
        .reader(SliceReader::new(data))
        .build()
        .unwrap()
        .stream();

    let mut records: Vec<Vec<u8>> = Vec::new();
    while let Some(x) = stream.next() {
        match x {
            Ok(data) => {
                println!("Data : {:?}", data);
                records.push(data);
            }
            Err(err) => println!("Error: {:?}", err),
        }
    }
    assert_eq!(records, vec![vec![1, 4, 3, 4], vec![2, 5]]);
}

#[test]
fn builder_refuses_missing_parts() {
    let it = Source::new(b"(1)");
    let built = StreamParserBuilder::<BufferPreallocated, Vec<u8>, _, _>::with_heuristic(
        StartGroupByParser {
            parser: start_group_parenthesis,
            start_character: b"(",
        },
    )
    .parser(parse_data)
    .iterator(it)
    .build();
    assert!(built.is_none());
}

#[test]
fn test_parse_with_reader() {
    let data = b"noise(1,5,3,4)###(2,5)(1,88,56,42,78,5)";
    let items = collect_with_reader(data, 20);
    let mut records: Vec<Vec<u8>> = Vec::new();
    for x in items {
        match x {
            Ok(data) => {
                println!("Data : {:?}", data);
                records.push(data);
            }
            Err(error @ StreamParserError::ExceededBufferUnknownSize { .. }) => {
                println!("Unrecoverable Error {:?}", error);
                break;
            }
            Err(err) => println!("Error: {:?}", err),
        }
    }
    assert_eq!(
        records,
        vec![vec![1, 5, 3, 4], vec![2, 5], vec![1, 88, 56, 42, 78, 5]]
    );
}
