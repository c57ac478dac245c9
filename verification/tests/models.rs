// The extractors against short models written with the string methods of
// std, on texts put together at random from the pieces that matter to them.

use lince_site::fragment::{
    extract_balanced_svg, extract_body, extract_first_block, extract_typst_doc_svg,
};
use lince_site::metadata::{
    extract_named_date, extract_named_string, extract_parenthesized_block,
    extract_title_from_typst, top_level_arguments,
};

const PIECES: [&str; 30] = [
    "<svg", "</svg>", "<body>", "</body>", "<div id=\"typst-app\"", "<svg class=\"typst-doc\"",
    "(", ")", "\"", "\\", "title:", "date:", "datetime(", "year:", "month:", "day:", ",", " ",
    "\t", "1", "23", "+4", "é", "日", "\n", "\r\n", "=", "#post(", "x", ">",
];

struct Random(u64);

impl Random {
    fn next(&mut self) -> u64 {
        self.0 ^= self.0 << 13;
        self.0 ^= self.0 >> 7;
        self.0 ^= self.0 << 17;
        self.0
    }

    fn below(&mut self, n: usize) -> usize {
        (self.next() % n as u64) as usize
    }

    fn text(&mut self, max_pieces: usize) -> String {
        let n = self.below(max_pieces + 1);
        let mut s = String::new();
        for _ in 0..n {
            s.push_str(PIECES[self.below(PIECES.len())]);
        }
        s
    }
}

fn model_block(input: &str, marker: &str) -> Option<String> {
    let start = input.find(marker)? + marker.len();
    let mut depth = 1usize;
    let mut in_string = false;
    let mut escaped = false;
    for (idx, ch) in input[start..].char_indices() {
        if in_string {
            if escaped {
                escaped = false;
            } else if ch == '\\' {
                escaped = true;
            } else if ch == '"' {
                in_string = false;
            }
            continue;
        }
        match ch {
            '"' => in_string = true,
            '(' => depth += 1,
            ')' => {
                depth -= 1;
                if depth == 0 {
                    return Some(input[start..start + idx].to_string());
                }
            }
            _ => {}
        }
    }
    None
}

fn model_arguments(args: &str) -> Vec<String> {
    let mut parts = vec![String::new()];
    let mut depth = 0i64;
    let mut in_string = false;
    let mut escaped = false;
    for ch in args.chars() {
        if ch == ',' && !in_string && depth == 0 {
            parts.push(String::new());
        } else {
            parts.last_mut().unwrap().push(ch);
        }
        if in_string {
            if escaped {
                escaped = false;
            } else if ch == '\\' {
                escaped = true;
            } else if ch == '"' {
                in_string = false;
            }
        } else {
            match ch {
                '"' => in_string = true,
                '(' => depth += 1,
                ')' => depth -= 1,
                _ => {}
            }
        }
    }
    parts
}

fn model_value(args: &str, key: &str) -> Option<String> {
    let name = format!("{key}:");
    for part in model_arguments(args) {
        if let Some(rest) = part.trim_start().strip_prefix(&name) {
            return Some(rest.trim_start().to_string());
        }
    }
    None
}

fn model_string(args: &str, key: &str) -> Option<String> {
    let value = model_value(args, key)?;
    if !value.starts_with('"') {
        return None;
    }
    let mut out = String::new();
    let mut escaped = false;
    for ch in value[1..].chars() {
        if escaped {
            out.push(ch);
            escaped = false;
        } else if ch == '\\' {
            escaped = true;
        } else if ch == '"' {
            return Some(out);
        } else {
            out.push(ch);
        }
    }
    None
}

fn model_date(args: &str, key: &str) -> Option<String> {
    let value = model_value(args, key)?;
    if !value.starts_with("datetime(") {
        return None;
    }
    let block = model_block(&value, "datetime(")?;
    let mut year: Option<u32> = None;
    let mut month: Option<u32> = None;
    let mut day: Option<u32> = None;
    for part in block.split(',') {
        let trimmed = part.trim();
        if let Some(value) = trimmed.strip_prefix("year:") {
            year = value.trim().parse::<u32>().ok();
        } else if let Some(value) = trimmed.strip_prefix("month:") {
            month = value.trim().parse::<u32>().ok();
        } else if let Some(value) = trimmed.strip_prefix("day:") {
            day = value.trim().parse::<u32>().ok();
        }
    }
    match (year, month, day) {
        (Some(y), Some(m), Some(d)) => Some(format!("{y:04}-{m:02}-{d:02}")),
        _ => None,
    }
}

fn model_title(content: Option<&str>, stem: Option<&str>) -> String {
    if let Some(content) = content {
        for line in content.lines() {
            let trimmed = line.trim();
            if trimmed.starts_with('=') {
                return trimmed.trim_start_matches('=').trim().to_string();
            }
        }
    }
    stem.unwrap_or("Untitled").to_string()
}

fn model_body(html: &str) -> String {
    match (html.find("<body>"), html.rfind("</body>")) {
        (Some(start), Some(end)) if start + 6 <= end => html[start + 6..end].trim().to_string(),
        _ => html.to_string(),
    }
}

fn model_first_block(input: &str, start_marker: &str, end_marker: &str) -> Option<String> {
    let start = input.find(start_marker)?;
    let end_rel = input[start..].find(end_marker)?;
    let end = start + end_rel + end_marker.len();
    Some(input[start..end].to_string())
}

// `start` is counted in bytes here.
fn model_svg(input: &str, start: usize) -> Option<String> {
    let mut cursor = start;
    let mut depth = 0usize;
    while cursor < input.len() {
        let next_open = input[cursor..].find("<svg").map(|p| cursor + p);
        let next_close = input[cursor..].find("</svg>").map(|p| cursor + p);
        match (next_open, next_close) {
            (Some(open), Some(close)) if open < close => {
                depth += 1;
                cursor = open + 4;
            }
            (_, Some(close)) => {
                if depth == 0 {
                    return None;
                }
                depth -= 1;
                cursor = close + "</svg>".len();
                if depth == 0 {
                    return Some(input[start..cursor].to_string());
                }
            }
            _ => return None,
        }
    }
    None
}

fn model_doc_svg(input: &str) -> Option<String> {
    if let Some(app_start) = input.find("<div id=\"typst-app\"") {
        if let Some(svg_rel_start) = input[app_start..].find("<svg") {
            if let Some(svg) = model_svg(input, app_start + svg_rel_start) {
                return Some(svg);
            }
        }
    }
    match input.find("<svg class=\"typst-doc\"") {
        Some(svg_start) => model_svg(input, svg_start),
        None => None,
    }
}

#[test]
fn blocks_agree_with_the_model() {
    let mut random = Random(0x9E37_79B9_7F4A_7C15);
    for _ in 0..20_000 {
        let input = random.text(14);
        for marker in ["(", "#post(", "datetime(", ""] {
            assert_eq!(
                extract_parenthesized_block(&input, marker),
                model_block(&input, marker),
                "{:?} {:?}",
                input,
                marker
            );
        }
    }
}

#[test]
fn strings_and_dates_agree_with_the_model() {
    let mut random = Random(0x1234_5678_9ABC_DEF1);
    for _ in 0..20_000 {
        let input = random.text(14);
        for key in ["title", "date", "year"] {
            assert_eq!(
                extract_named_string(&input, key),
                model_string(&input, key),
                "{:?} {:?}",
                input,
                key
            );
            assert_eq!(
                extract_named_date(&input, key),
                model_date(&input, key),
                "{:?} {:?}",
                input,
                key
            );
        }
    }
}

#[test]
fn arguments_agree_with_the_model() {
    let mut random = Random(0x5EED_5EED_1234_0001);
    for _ in 0..20_000 {
        let input = random.text(14);
        let chars: Vec<char> = input.chars().collect();
        let parts: Vec<String> = top_level_arguments(&chars)
            .iter()
            .map(|p| p.iter().collect())
            .collect();
        assert_eq!(parts, model_arguments(&input), "{:?}", input);
    }
}

#[test]
fn well_formed_dates_agree_with_the_model() {
    let mut random = Random(0x0F0F_F0F0_1234_4321);
    for _ in 0..5_000 {
        let fields = [
            format!("year:{}{}", random.text(1), random.next() % 3000),
            format!("month: {}{}", random.next() % 14, random.text(1)),
            format!("{}day: {}", random.text(1), random.next() % 40),
        ];
        let first = random.below(3);
        let input = format!(
            "{}date: datetime({}, {},{})",
            random.text(3),
            fields[first],
            fields[(first + 1) % 3],
            fields[(first + 2) % 3]
        );
        assert_eq!(
            extract_named_date(&input, "date"),
            model_date(&input, "date"),
            "{:?}",
            input
        );
    }
}

#[test]
fn titles_agree_with_the_model() {
    let mut random = Random(0xDEAD_BEEF_0BAD_F00D);
    for _ in 0..20_000 {
        let input = random.text(10);
        assert_eq!(
            extract_title_from_typst(Some(&input), Some("stem")),
            model_title(Some(&input), Some("stem")),
            "{:?}",
            input
        );
    }
}

#[test]
fn bodies_and_blocks_agree_with_the_model() {
    let mut random = Random(0x0123_4567_89AB_CDEF);
    for _ in 0..20_000 {
        let input = random.text(12);
        assert_eq!(extract_body(input.clone()), model_body(&input), "{:?}", input);
        assert_eq!(
            extract_first_block(&input, "<svg", "</svg>"),
            model_first_block(&input, "<svg", "</svg>"),
            "{:?}",
            input
        );
        assert_eq!(
            extract_first_block(&input, "g", "svg"),
            model_first_block(&input, "g", "svg"),
            "{:?}",
            input
        );
    }
}

#[test]
fn svg_elements_agree_with_the_model() {
    let mut random = Random(0x0BAD_CAFE_1357_9BDF);
    for _ in 0..20_000 {
        let input = random.text(14);
        let boundaries: Vec<usize> = input
            .char_indices()
            .map(|(at, _)| at)
            .chain([input.len(), input.len() + 3])
            .collect();
        let start = random.below(boundaries.len());
        assert_eq!(
            extract_balanced_svg(&input, start),
            model_svg(&input, boundaries[start]),
            "{:?} {}",
            input,
            start
        );
        assert_eq!(
            extract_typst_doc_svg(&input),
            model_doc_svg(&input),
            "{:?}",
            input
        );
    }
}
