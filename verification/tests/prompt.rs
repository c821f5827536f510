use fastview::prompt::{
    api_prompt, extract_comfyui_prompt, find_prompt_in_value, first_extracted, first_long_text,
    get, input_text, is_prompt_node, node_prompt, plain_prompt, png_json_candidates, png_prompt,
    reads_like_prompt, webp_exif_chunks, workflow_json_text, workflow_prompt, Json, Member,
    PngChunk,
};

fn convert(value: &serde_json::Value) -> Json {
    match value {
        serde_json::Value::Null => Json::Null,
        serde_json::Value::Bool(flag) => Json::Bool(*flag),
        serde_json::Value::Number(_) => Json::Number,
        serde_json::Value::String(text) => Json::Text(text.clone()),
        serde_json::Value::Array(items) => Json::Array(items.iter().map(convert).collect()),
        serde_json::Value::Object(members) => Json::Object(
            members
                .iter()
                .map(|(key, value)| Member { key: key.clone(), value: convert(value) })
                .collect(),
        ),
    }
}

fn parse(text: &str) -> Json {
    convert(&serde_json::from_str::<serde_json::Value>(text).unwrap())
}

fn text(value: &str) -> Option<String> {
    Some(value.to_string())
}

fn chunk(kind: &[u8; 4], contents: &[u8]) -> PngChunk {
    PngChunk { kind: *kind, contents: contents.to_vec() }
}

fn bytes(value: &str) -> Option<Vec<u8>> {
    Some(value.as_bytes().to_vec())
}

#[test]
fn members_are_found_by_key() {
    let json = parse(r#"{"a": 1, "b": "x", "c": [true, null]}"#);
    assert_eq!(get(&json, "a"), Some(&Json::Number));
    assert_eq!(get(&json, "b"), Some(&Json::Text("x".to_string())));
    assert_eq!(get(&json, "c"), Some(&Json::Array(vec![Json::Bool(true), Json::Null])));
    assert_eq!(get(&json, "d"), None);
    assert_eq!(get(&json, ""), None);
    assert_eq!(get(&Json::Array(vec![json]), "a"), None);
    assert_eq!(get(&Json::Text("a".to_string()), "a"), None);
}

#[test]
fn prompt_nodes_are_known_by_their_type() {
    assert!(is_prompt_node(&parse(r#"{"type": "CLIPTextEncode"}"#)));
    assert!(is_prompt_node(&parse(r#"{"type": "MyCLIPTextEncodeSDXL"}"#)));
    assert!(is_prompt_node(&parse(r#"{"type": "ShowText"}"#)));
    assert!(!is_prompt_node(&parse(r#"{"type": "KSampler"}"#)));
    assert!(!is_prompt_node(&parse(r#"{"type": "text"}"#)));
    assert!(!is_prompt_node(&parse(r#"{"type": 5}"#)));
    assert!(!is_prompt_node(&parse(r#"{"kind": "Text"}"#)));
    assert!(!is_prompt_node(&parse(r#""Text""#)));
}

#[test]
fn first_long_text_skips_short_and_other_values() {
    let values = vec![
        Json::Number,
        Json::Text("short".to_string()),
        Json::Text("exactly 10".to_string()),
        Json::Text("eleven char".to_string()),
        Json::Text("a much longer text".to_string()),
    ];
    assert_eq!(first_long_text(&values, 10), text("eleven char"));
    assert_eq!(first_long_text(&values, 11), text("a much longer text"));
    assert_eq!(first_long_text(&values, 100), None);
    assert_eq!(first_long_text(&Vec::new(), 0), None);
    // Length is counted in bytes.
    assert_eq!(first_long_text(&vec![Json::Text("ééééé!".to_string())], 10), text("ééééé!"));
}

#[test]
fn workflow_prompt_comes_from_the_first_text_node() {
    let json = parse(
        r#"{"nodes": [
            {"type": "KSampler", "widgets_values": ["a text that is long enough"]},
            {"type": "CLIPTextEncode", "widgets_values": [7, "short", "a cat on a mat, masterpiece"]},
            {"type": "CLIPTextEncode", "widgets_values": ["the negative prompt"]}
        ]}"#,
    );
    assert_eq!(workflow_prompt(&json), text("a cat on a mat, masterpiece"));
    assert_eq!(extract_comfyui_prompt(&json), text("a cat on a mat, masterpiece"));
    let node = parse(r#"{"type": "CLIPTextEncode", "widgets_values": ["a cat on a mat"]}"#);
    assert_eq!(node_prompt(&node), text("a cat on a mat"));
    let empty = parse(r#"{"type": "CLIPTextEncode", "widgets_values": "a cat on a mat"}"#);
    assert_eq!(node_prompt(&empty), None);
}

#[test]
fn workflow_nodes_may_stand_under_prompt() {
    let json = parse(r#"{"prompt": [{"type": "Text", "widgets_values": ["a dog in the fog"]}]}"#);
    assert_eq!(workflow_prompt(&json), text("a dog in the fog"));
    // With nodes present, prompt is not looked at.
    let json = parse(
        r#"{"nodes": {}, "prompt": [{"type": "Text", "widgets_values": ["a dog in the fog"]}]}"#,
    );
    assert_eq!(workflow_prompt(&json), None);
}

#[test]
fn api_prompt_comes_from_the_first_long_text_input() {
    let json = parse(
        r#"{"1": {"inputs": {"text": "too short"}},
            "2": {"inputs": {"seed": 5}},
            "3": {"inputs": {"text": "a bird in a tree at dawn"}},
            "4": {"inputs": {"text": "another long enough text here"}}}"#,
    );
    assert_eq!(api_prompt(&json), text("a bird in a tree at dawn"));
    assert_eq!(extract_comfyui_prompt(&json), text("a bird in a tree at dawn"));
    assert_eq!(input_text(&parse(r#"{"inputs": {"text": "exactly twenty bytes"}}"#)), None);
    assert_eq!(
        input_text(&parse(r#"{"inputs": {"text": "exactly twenty bytes!"}}"#)),
        text("exactly twenty bytes!")
    );
    assert_eq!(api_prompt(&parse("[1, 2]")), None);
}

#[test]
fn plain_prompt_is_the_text_under_prompt() {
    assert_eq!(plain_prompt(&parse(r#"{"prompt": "a cat"}"#)), text("a cat"));
    assert_eq!(extract_comfyui_prompt(&parse(r#"{"prompt": "a cat"}"#)), text("a cat"));
    assert_eq!(plain_prompt(&parse(r#"{"prompt": 5}"#)), None);
    assert_eq!(plain_prompt(&parse(r#"{"text": "a cat"}"#)), None);
}

#[test]
fn texts_that_read_like_prompts() {
    assert!(reads_like_prompt("a Masterpiece of a painting"));
    assert!(reads_like_prompt("portrait, BEST QUALITY, sharp"));
    assert!(reads_like_prompt("landscape in 8K resolution"));
    assert!(reads_like_prompt("an ultra detailed drawing"));
    assert!(reads_like_prompt("a photorealistic portrait"));
    assert!(reads_like_prompt("an unreal engine render"));
    assert!(!reads_like_prompt("masterpiece"));
    assert_eq!("a short render 20 b.".len(), 20);
    assert!(!reads_like_prompt("a short render 20 b."));
    assert!(reads_like_prompt("a short render 21 by."));
    assert!(!reads_like_prompt("nothing special to see in this text"));
}

#[test]
fn prompt_is_searched_under_likely_keys_first() {
    let json = parse(
        r#"{"a": "first in order, a masterpiece of a text",
            "positive": "found by key, a masterpiece of a text",
            "z": {"prompt": "nested, a masterpiece of a text"}}"#,
    );
    assert_eq!(find_prompt_in_value(&json), text("found by key, a masterpiece of a text"));
    let json = parse(
        r#"{"positive": "not a prompt though it is long",
            "description": {"inner": ["x", "deep inside, best quality, detailed"]},
            "text": 5}"#,
    );
    assert_eq!(find_prompt_in_value(&json), text("deep inside, best quality, detailed"));
    let json = parse(r#"{"b": ["no", {"c": "in order, ultra detailed painting"}], "d": 1}"#);
    assert_eq!(find_prompt_in_value(&json), text("in order, ultra detailed painting"));
    assert_eq!(extract_comfyui_prompt(&json), text("in order, ultra detailed painting"));
    assert_eq!(find_prompt_in_value(&parse(r#"{"a": [1, true, null, {}]}"#)), None);
    assert_eq!(find_prompt_in_value(&parse("5")), None);
}

#[test]
fn extraction_prefers_workflow_over_other_shapes() {
    let json = parse(
        r#"{"nodes": [{"type": "Text", "widgets_values": ["from the workflow"]}],
            "x": {"inputs": {"text": "from the node definitions"}},
            "prompt": "plain"}"#,
    );
    assert_eq!(extract_comfyui_prompt(&json), text("from the workflow"));
    let json = parse(
        r#"{"x": {"inputs": {"text": "from the node definitions"}}, "prompt": "plain"}"#,
    );
    assert_eq!(extract_comfyui_prompt(&json), text("from the node definitions"));
    assert_eq!(extract_comfyui_prompt(&parse("{}")), None);
    assert_eq!(extract_comfyui_prompt(&parse("[]")), None);
}

#[test]
fn first_document_with_a_prompt_wins() {
    let parsed = vec![
        None,
        Some(parse("{}")),
        Some(parse(r#"{"prompt": "second"}"#)),
        Some(parse(r#"{"prompt": "third"}"#)),
    ];
    assert_eq!(first_extracted(&parsed), text("second"));
    assert_eq!(first_extracted(&vec![None, Some(parse("[]"))]), None);
    assert_eq!(first_extracted(&Vec::new()), None);
}

#[test]
fn png_prompt_named_as_such_comes_first() {
    let chunks = vec![
        chunk(b"IHDR", b"Prompt\0not a text chunk"),
        chunk(b"tEXt", b"Comment\0a comment, with (marks) in it"),
        chunk(b"iTXt", b"prompt\0a cat"),
        chunk(b"tEXt", b"Prompt\0a dog"),
    ];
    assert_eq!(png_prompt(&chunks, &Vec::new()), bytes("a cat"));
    assert_eq!(png_prompt(&chunks[3..].iter().map(|c| chunk(&c.kind, &c.contents)).collect(), &Vec::new()), bytes("a dog"));
    let empty = vec![chunk(b"tEXt", b"Prompt\0")];
    assert_eq!(png_prompt(&empty, &Vec::new()), bytes(""));
    let broken = vec![chunk(b"tEXt", b"Prompt\0\xff\xfe")];
    assert_eq!(png_prompt(&broken, &Vec::new()), None);
}

#[test]
fn png_json_candidates_are_values_that_open_a_brace() {
    let chunks = vec![
        chunk(b"tEXt", b"workflow\0  {\"nodes\": []}"),
        chunk(b"tEXt", b"comment\0not json"),
        chunk(b"zTXt", b"prompt2\0{}"),
        chunk(b"iTXt", b"parameters\0{\"prompt\": \"a cat\"}"),
        chunk(b"tEXt", b"no zero byte {"),
        chunk(b"tEXt", b"\0{"),
    ];
    assert_eq!(
        png_json_candidates(&chunks),
        vec![
            b"  {\"nodes\": []}".to_vec(),
            b"{\"prompt\": \"a cat\"}".to_vec(),
            b"{".to_vec(),
        ]
    );
    let parsed = vec![Some(parse("{\"nodes\": []}")), Some(parse("{\"prompt\": \"a cat\"}")), None];
    assert_eq!(png_prompt(&chunks, &parsed), bytes("a cat"));
}

#[test]
fn png_prompt_falls_back_to_a_value_that_looks_like_one() {
    let long = format!("parameters\0{}", "a cat, ".repeat(20));
    let chunks = vec![
        chunk(b"tEXt", b"Software\0AI Generated (by a machine)"),
        chunk(b"tEXt", b"Title\0short, one"),
        chunk(b"tEXt", b"Title\0long enough but without any marks"),
        chunk(b"iTXt", b"Comment\0an international text, long enough"),
        chunk(b"tEXt", long.as_bytes()),
        chunk(b"tEXt", b"Other\0another one (that would do)"),
    ];
    assert_eq!(png_prompt(&chunks, &Vec::new()), bytes(&"a cat, ".repeat(20)));
    let limits = vec![
        chunk(b"tEXt", format!("k\0{},", "x".repeat(9)).as_bytes()),
        chunk(b"tEXt", format!("k\0{},", "x".repeat(1999)).as_bytes()),
    ];
    assert_eq!(png_prompt(&limits, &Vec::new()), None);
    let inside = vec![chunk(b"tEXt", format!("k\0{},", "x".repeat(10)).as_bytes())];
    assert_eq!(png_prompt(&inside, &Vec::new()), bytes(&format!("{},", "x".repeat(10))));
    assert_eq!(png_prompt(&Vec::new(), &Vec::new()), None);
}

#[test]
fn workflow_text_is_unquoted_and_unescaped() {
    assert_eq!(
        workflow_json_text(br#""Workflow: {\"nodes\": [\"a\\nb\"]}""#),
        bytes("{\"nodes\": [\"a\\\nb\"]}")
    );
    assert_eq!(workflow_json_text(br#"{"a": 1}"#), bytes(r#"{"a": 1}"#));
    assert_eq!(workflow_json_text(b"  {}  "), bytes("{}"));
    assert_eq!(workflow_json_text(b"Workflow:Workflow:\t{}\n"), bytes("{}"));
    assert_eq!(workflow_json_text(b" Workflow:{}"), None);
    assert_eq!(workflow_json_text(b"[1]"), None);
    assert_eq!(workflow_json_text(b""), None);
    assert_eq!(workflow_json_text(b"\"\""), None);
    for value in ["\"Workflow: {\\\"a\\\": \\\"b\\\\tc\\\"}\"", " {x} ", "\"{\\n}\""] {
        let unescaped = value
            .trim_matches('"')
            .replace("\\\"", "\"")
            .replace("\\n", "\n")
            .replace("\\t", "\t");
        let expected = unescaped.trim_start_matches("Workflow:").trim();
        assert_eq!(workflow_json_text(value.as_bytes()), bytes(expected));
    }
}

fn riff(chunks: &[(&[u8; 4], &[u8])]) -> Vec<u8> {
    let mut body = b"WEBP".to_vec();
    for (tag, contents) in chunks {
        body.extend(*tag);
        body.extend((contents.len() as u32).to_le_bytes());
        body.extend(*contents);
        if contents.len() % 2 == 1 {
            body.push(0);
        }
    }
    let mut file = b"RIFF".to_vec();
    file.extend((body.len() as u32).to_le_bytes());
    file.extend(body);
    file
}

#[test]
fn webp_exif_chunks_are_found_in_order() {
    // The scan does not look at a chunk whose header reaches into the last
    // eight bytes of the file, so something has to follow.
    let file = riff(&[
        (b"VP8 ", b"pixels!"),
        (b"EXIF", b"first"),
        (b"XMP ", b""),
        (b"EXIF", b"second one"),
        (b"EXTR", b"end of file"),
    ]);
    let found = webp_exif_chunks(&file);
    assert_eq!(found.len(), 2);
    assert_eq!(&file[found[0].0..found[0].1], b"first");
    assert_eq!(&file[found[1].0..found[1].1], b"second one");
    assert_eq!(found[0], (36, 41));
}

#[test]
fn webp_scan_starts_at_the_first_riff_tag() {
    let mut file = b"junk".to_vec();
    file.extend(riff(&[(b"EXIF", b"data"), (b"EXTR", b"end of file")]));
    let found = webp_exif_chunks(&file);
    assert_eq!(found, vec![(24, 28)]);
    let mut other = riff(&[(b"EXIF", b"data"), (b"EXTR", b"end of file")]);
    other[8..12].copy_from_slice(b"WAVE");
    assert_eq!(webp_exif_chunks(&other), Vec::new());
}

#[test]
fn damaged_webp_files_are_scanned_without_harm() {
    assert_eq!(webp_exif_chunks(b""), Vec::new());
    assert_eq!(webp_exif_chunks(b"RIFF"), Vec::new());
    assert_eq!(webp_exif_chunks(b"RIFF\x04\0\0\0WEBP"), Vec::new());
    assert_eq!(webp_exif_chunks(&[0u8; 64]), Vec::new());
    // A chunk that says it is longer than the file.
    let mut file = riff(&[(b"EXIF", b"data"), (b"EXTR", b"end of file")]);
    file[16..20].copy_from_slice(&u32::MAX.to_le_bytes());
    assert_eq!(webp_exif_chunks(&file), Vec::new());
    // A container that ends before its chunks do.
    let mut file = riff(&[(b"VP8 ", b"pixels"), (b"EXIF", b"data"), (b"EXTR", b"end of file")]);
    file[4..8].copy_from_slice(&10u32.to_le_bytes());
    assert_eq!(webp_exif_chunks(&file), Vec::new());
    let whole = riff(&[(b"EXIF", b"data"), (b"EXTR", b"end of file")]);
    for length in 0..whole.len() {
        let found = webp_exif_chunks(&whole[..length]);
        assert!(found.len() <= 1);
        for (start, end) in found {
            assert!(start <= end && end <= length);
        }
    }
}
