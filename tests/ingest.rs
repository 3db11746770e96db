use movie_ingest::embed::{check_embeddings, encode_request, read_output, EMBEDDING_DIM};
use movie_ingest::error::IngestError;
use movie_ingest::payload::project_payload;
use movie_ingest::pipeline::{Event, Ingestion, Stage, Step};
use movie_ingest::provision::{collection_exists, collection_to_create, Comparator, Distance, VECTOR_SIZE};
use movie_ingest::search::{MovieRecommendation, MyApp};
use movie_ingest::table::{Cell, Table};
use movie_ingest::text::{extract_text_data, preprocessing};
use movie_ingest::upload::{batch_points, plan_batches, BATCH_SIZE};

fn text(s: &str) -> Cell {
    Cell::Text(s.to_string())
}

fn movies() -> Table {
    let mut t = Table::new(3);
    t.push_column("Release Year".to_string(), vec![Cell::Int(1901), Cell::Int(-5), Cell::Null]).unwrap();
    t.push_column("Title".to_string(), vec![text("Alice"), text("Bob"), Cell::Null]).unwrap();
    t.push_column("Plot".to_string(), vec![text("A girl."), Cell::Null, text("Nothing.")]).unwrap();
    t.push_column("Origin/Ethnicity".to_string(), vec![text("American"), text("British"), text("Indian")]).unwrap();
    t.push_column("Director".to_string(), vec![text("Cecil"), Cell::Null, text("Ray")]).unwrap();
    t.push_column("Genre".to_string(), vec![text("drama"), text("comedy"), Cell::Null]).unwrap();
    t
}

fn pairs(p: &[(&str, &str)]) -> Vec<(String, String)> {
    p.iter().map(|(k, v)| (k.to_string(), v.to_string())).collect()
}

#[test]
fn push_column_rejects_wrong_length() {
    let mut t = Table::new(2);
    let r = t.push_column("Title".to_string(), vec![text("x")]);
    assert_eq!(r, Err(IngestError::Schema { column: "Title".to_string() }));
    assert_eq!(t.columns.len(), 0);
}

#[test]
fn find_column_takes_first_match() {
    let mut t = Table::new(1);
    t.push_column("A".to_string(), vec![Cell::Null]).unwrap();
    t.push_column("B".to_string(), vec![Cell::Null]).unwrap();
    t.push_column("B".to_string(), vec![Cell::Null]).unwrap();
    assert_eq!(t.find_column("B"), Some(1));
    assert_eq!(t.find_column("C"), None);
}

#[test]
fn preprocessing_recasts_year_to_text() {
    let t = preprocessing(&movies()).unwrap();
    assert_eq!(t.rows, 3);
    match &t.columns[0].cells[0] {
        Cell::Text(s) => assert_eq!(s, "1901"),
        other => panic!("unexpected {:?}", other),
    }
    match &t.columns[0].cells[1] {
        Cell::Text(s) => assert_eq!(s, "-5"),
        other => panic!("unexpected {:?}", other),
    }
    assert!(matches!(t.columns[0].cells[2], Cell::Null));
    match &t.columns[1].cells[0] {
        Cell::Text(s) => assert_eq!(s, "Alice"),
        other => panic!("unexpected {:?}", other),
    }
}

#[test]
fn integer_cells_read_as_decimal() {
    for (n, want) in [(0i64, "0"), (7, "7"), (10, "10"), (2017, "2017"), (-40, "-40"), (i64::MAX, "9223372036854775807"), (i64::MIN, "-9223372036854775808")] {
        assert_eq!(Cell::Int(n).to_text(), want);
    }
    assert_eq!(Cell::Null.to_text(), "");
}

#[test]
fn preprocessing_without_year_is_schema_error() {
    let mut t = Table::new(1);
    t.push_column("Title".to_string(), vec![text("x")]).unwrap();
    assert_eq!(preprocessing(&t).unwrap_err(), IngestError::Schema { column: "Release Year".to_string() });
}

#[test]
fn texts_keep_row_count_and_format() {
    let t = preprocessing(&movies()).unwrap();
    let texts = extract_text_data(&t).unwrap();
    assert_eq!(
        texts,
        vec![
            "Title: Alice Plot: A girl.".to_string(),
            "Title: Bob Plot: ".to_string(),
            "Title:  Plot: Nothing.".to_string(),
        ]
    );
}

#[test]
fn texts_of_empty_table() {
    let mut t = Table::new(0);
    t.push_column("Title".to_string(), vec![]).unwrap();
    t.push_column("Plot".to_string(), vec![]).unwrap();
    assert_eq!(extract_text_data(&t).unwrap().len(), 0);
}

#[test]
fn texts_need_title_then_plot() {
    let mut t = Table::new(1);
    t.push_column("Plot".to_string(), vec![text("p")]).unwrap();
    assert_eq!(extract_text_data(&t).unwrap_err(), IngestError::Projection { column: "Title".to_string() });
    let mut u = Table::new(1);
    u.push_column("Title".to_string(), vec![text("t")]).unwrap();
    assert_eq!(extract_text_data(&u).unwrap_err(), IngestError::Projection { column: "Plot".to_string() });
}

#[test]
fn payload_keeps_present_fields_in_order() {
    let t = preprocessing(&movies()).unwrap();
    let p = project_payload(&t, 0).unwrap();
    assert_eq!(
        p,
        pairs(&[("title", "Alice"), ("year", "1901"), ("origin", "American"), ("director", "Cecil"), ("genre", "drama")])
    );
}

#[test]
fn payload_omits_missing_director() {
    let t = preprocessing(&movies()).unwrap();
    let p = project_payload(&t, 1).unwrap();
    assert_eq!(p, pairs(&[("title", "Bob"), ("year", "-5"), ("origin", "British"), ("genre", "comedy")]));
    assert!(p.iter().all(|(k, _)| k != "director"));
    let q = project_payload(&t, 2).unwrap();
    assert_eq!(q, pairs(&[("origin", "Indian"), ("director", "Ray")]));
}

#[test]
fn payload_row_out_of_bounds() {
    let t = movies();
    assert_eq!(project_payload(&t, 3).unwrap_err(), IngestError::RowIndex { row: 3, rows: 3 });
}

#[test]
fn encode_request_writes_json_array() {
    let texts = vec!["a \"b\"".to_string(), "c".to_string()];
    assert_eq!(encode_request(&texts).unwrap(), "[\"a \\\"b\\\"\",\"c\"]");
    assert_eq!(encode_request(&vec![]).unwrap(), "[]");
}

#[test]
fn encode_request_escapes_control_characters() {
    let texts = vec!["a\tb\nc\\d\u{1}\u{1f}é/".to_string()];
    assert_eq!(encode_request(&texts).unwrap(), "[\"a\\tb\\nc\\\\d\\u0001\\u001fé/\"]");
    let one = vec!["x".to_string()];
    assert_eq!(encode_request(&one).unwrap(), "[\"x\"]");
}

#[test]
fn read_output_passes_success_through() {
    let r = read_output(true, "[[0.5]]".to_string(), String::new());
    assert_eq!(r, Ok("[[0.5]]".to_string()));
    assert_eq!(read_output(true, "ERR".to_string(), String::new()), Ok("ERR".to_string()));
}

#[test]
fn read_output_reports_failed_process() {
    let r = read_output(false, "[]".to_string(), "Traceback".to_string());
    assert_eq!(r, Err(IngestError::BackendExecution { message: "Traceback".to_string() }));
}

#[test]
fn read_output_reports_error_marker() {
    let r = read_output(true, "ERROR: model not found\nmore".to_string(), String::new());
    assert_eq!(r, Err(IngestError::BackendExecution { message: " model not found".to_string() }));
    let s = read_output(true, "ERROR:x".to_string(), String::new());
    assert_eq!(s, Err(IngestError::BackendExecution { message: "x".to_string() }));
}

#[test]
fn embeddings_count_must_match() {
    let r = check_embeddings(3, &vec![EMBEDDING_DIM, EMBEDDING_DIM]);
    assert_eq!(r, Err(IngestError::BackendCountMismatch { expected: 3, actual: 2 }));
    assert_eq!(check_embeddings(2, &vec![EMBEDDING_DIM, EMBEDDING_DIM]), Ok(()));
    assert_eq!(check_embeddings(0, &vec![]), Ok(()));
}

#[test]
fn embeddings_dimension_must_match() {
    let r = check_embeddings(3, &vec![128, 127, 3]);
    assert_eq!(r, Err(IngestError::BackendDimension { row: 1, expected: 128, actual: 127 }));
}

#[test]
fn collection_lookup() {
    let names = vec!["other".to_string(), "movie_plots".to_string()];
    assert!(collection_exists(&names, "movie_plots"));
    assert!(!collection_exists(&names, "movie"));
    assert!(collection_to_create(&names, "movie_plots").is_none());
    let c = collection_to_create(&names, "fresh").unwrap();
    assert_eq!(c.name, "fresh");
    assert_eq!(c.vector_size, 128);
    assert_eq!(VECTOR_SIZE, 128);
    assert_eq!(c.distance, Distance::Cosine);
    assert_eq!(c.comparator, Comparator::MaxSim);
}

#[test]
fn provisioning_twice_creates_once() {
    let mut names: Vec<String> = vec![];
    let mut creations = 0;
    for _ in 0..2 {
        if let Some(c) = collection_to_create(&names, "movie_plots") {
            creations += 1;
            names.push(c.name);
        }
    }
    assert_eq!(creations, 1);
}

#[test]
fn batches_of_250_rows() {
    assert_eq!(BATCH_SIZE, 100);
    assert_eq!(plan_batches(250, BATCH_SIZE), vec![(0, 100), (100, 200), (200, 250)]);
}

#[test]
fn batches_edge_cases() {
    assert_eq!(plan_batches(0, 100), vec![]);
    assert_eq!(plan_batches(200, 100), vec![(0, 100), (100, 200)]);
    assert_eq!(plan_batches(1, 100), vec![(0, 1)]);
    assert_eq!(plan_batches(5, 2), vec![(0, 2), (2, 4), (4, 5)]);
    assert_eq!(plan_batches(3, 1), vec![(0, 1), (1, 2), (2, 3)]);
}

#[test]
fn batch_points_use_row_ids() {
    let t = preprocessing(&movies()).unwrap();
    let ps = batch_points(&t, 1, 3).unwrap();
    assert_eq!(ps.len(), 2);
    assert_eq!(ps[0].id, 1);
    assert_eq!(ps[1].id, 2);
    assert_eq!(ps[1].payload, pairs(&[("origin", "Indian"), ("director", "Ray")]));
    assert_eq!(batch_points(&t, 2, 5).unwrap_err(), IngestError::RowIndex { row: 3, rows: 3 });
    assert_eq!(batch_points(&t, 2, 2).unwrap().len(), 0);
}

fn run(rows: usize, listed: Vec<String>) -> (Vec<Step>, Stage) {
    let mut ing = Ingestion::new("movie_plots".to_string(), rows, BATCH_SIZE);
    let mut steps = vec![];
    let mut step = ing.advance(Event::Embedded { lengths: vec![EMBEDDING_DIM; rows] });
    loop {
        let ev = match &step {
            Step::ListCollections => Event::Listed(listed.clone()),
            Step::CreateCollection(_) => Event::Created,
            Step::Upsert { .. } => Event::Upserted,
            _ => break,
        };
        steps.push(step);
        step = ing.advance(ev);
    }
    steps.push(step);
    (steps, ing.stage)
}

#[test]
fn scenario_250_rows_new_collection() {
    let (steps, stage) = run(250, vec![]);
    assert_eq!(stage, Stage::Done);
    assert!(matches!(steps[0], Step::ListCollections));
    assert!(matches!(&steps[1], Step::CreateCollection(c) if c.name == "movie_plots"));
    assert!(matches!(steps[2], Step::Upsert { start: 0, end: 100 }));
    assert!(matches!(steps[3], Step::Upsert { start: 100, end: 200 }));
    assert!(matches!(steps[4], Step::Upsert { start: 200, end: 250 }));
    assert!(matches!(steps[5], Step::Finished));
    assert_eq!(steps.len(), 6);
}

#[test]
fn scenario_model_not_found_aborts_before_backend() {
    let mut ing = Ingestion::new("movie_plots".to_string(), 250, BATCH_SIZE);
    let err = read_output(true, "ERROR: model not found".to_string(), String::new()).unwrap_err();
    let step = ing.advance(Event::EmbedFailed(err));
    assert!(matches!(&step, Step::Aborted(IngestError::BackendExecution { message }) if message == " model not found"));
    assert_eq!(ing.stage, Stage::Failed);
    assert!(matches!(ing.advance(Event::Listed(vec![])), Step::Ignored));
    assert!(matches!(ing.advance(Event::Created), Step::Ignored));
    assert!(matches!(ing.advance(Event::Upserted), Step::Ignored));
}

#[test]
fn scenario_existing_collection_is_not_created() {
    let (steps, stage) = run(250, vec!["movie_plots".to_string()]);
    assert_eq!(stage, Stage::Done);
    assert!(steps.iter().all(|s| !matches!(s, Step::CreateCollection(_))));
    assert!(matches!(steps[1], Step::Upsert { start: 0, end: 100 }));
    assert_eq!(steps.len(), 5);
}

#[test]
fn scenario_count_mismatch_aborts() {
    let mut ing = Ingestion::new("movie_plots".to_string(), 3, BATCH_SIZE);
    let step = ing.advance(Event::Embedded { lengths: vec![EMBEDDING_DIM; 2] });
    assert!(matches!(step, Step::Aborted(IngestError::BackendCountMismatch { expected: 3, actual: 2 })));
    assert_eq!(ing.stage, Stage::Failed);
}

#[test]
fn scenario_upload_failure_reports_range() {
    let mut ing = Ingestion::new("movie_plots".to_string(), 250, BATCH_SIZE);
    ing.advance(Event::Embedded { lengths: vec![EMBEDDING_DIM; 250] });
    ing.advance(Event::Listed(vec!["movie_plots".to_string()]));
    assert!(matches!(ing.advance(Event::Upserted), Step::Upsert { start: 100, end: 200 }));
    let step = ing.advance(Event::BackendFailed("timeout".to_string()));
    assert!(matches!(&step, Step::Aborted(IngestError::Upload { message, start: 100, end: 200 }) if message == "timeout"));
}

#[test]
fn scenario_listing_failure_is_provision_error() {
    let mut ing = Ingestion::new("movie_plots".to_string(), 1, BATCH_SIZE);
    ing.advance(Event::Embedded { lengths: vec![EMBEDDING_DIM] });
    let step = ing.advance(Event::BackendFailed("unreachable".to_string()));
    assert!(matches!(&step, Step::Aborted(IngestError::Provision { message }) if message == "unreachable"));
}

#[test]
fn scenario_empty_table_finishes_without_upserts() {
    let (steps, stage) = run(0, vec![]);
    assert_eq!(stage, Stage::Done);
    assert!(matches!(steps[1], Step::CreateCollection(_)));
    assert!(matches!(steps[2], Step::Finished));
}

fn rec(t: &str) -> MovieRecommendation {
    MovieRecommendation { title: t.to_string(), release_year: "1999".to_string() }
}

#[test]
fn search_with_empty_query_clears() {
    let mut app = MyApp::default();
    app.recommendations = vec![rec("a")];
    app.perform_search(vec![rec("b")]);
    assert!(app.recommendations.is_empty());
}

#[test]
fn search_shows_at_most_three() {
    let mut app = MyApp::default();
    app.query = "space".to_string();
    app.perform_search(vec![rec("a"), rec("b"), rec("c"), rec("d")]);
    let titles: Vec<&str> = app.recommendations.iter().map(|r| r.title.as_str()).collect();
    assert_eq!(titles, vec!["a", "b", "c"]);
    app.perform_search(vec![rec("e")]);
    assert_eq!(app.recommendations.len(), 1);
}
