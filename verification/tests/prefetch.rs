use myrica::backend::history::HistoryAction;
use myrica::backend::prefetch::{
    find_source, resolve_imports, LoadedScript, PendingPage, PrefetchBatch, PrefetchStart, PrefetchStep,
    ScriptSource, ScriptUrl,
};
use myrica::network::FetchResponse;

fn page() -> PendingPage {
    PendingPage {
        generation: 1,
        requested_url: String::from("http://a.test/page"),
        history_action: HistoryAction::Push,
        response: FetchResponse {
            final_url: String::from("http://a.test/page"),
            status: 200,
            body: Vec::new(),
            content_type: None,
        },
    }
}

fn script(url: &str) -> ScriptUrl {
    ScriptUrl {
        scheme: String::from(url.split(':').next().unwrap()),
        href: String::from(url),
    }
}

fn loaded(text: &str, imports: &[&str]) -> Option<LoadedScript> {
    Some(LoadedScript {
        text: String::from(text),
        imports: imports.iter().map(|text| String::from(*text)).collect(),
    })
}

#[test]
fn a_page_without_scripts_is_ready() {
    let inline = vec![script("data:text/javascript,1")];
    let nothing = PrefetchBatch::begin(page(), &inline, &vec![]);
    assert!(matches!(nothing, PrefetchStart::Ready(ready) if ready == page()));
}

#[test]
fn imports_are_fetched_transitively_and_once() {
    let PrefetchStart::Fetch(mut batch, wave) = PrefetchBatch::begin(
        page(),
        &vec![
            script("http://a.test/main.mjs"),
            script("http://a.test/main.mjs"),
            script("http://a.test/other.js"),
        ],
        &resolve_imports("http://a.test/page", &vec![String::from("./other.js")]),
    ) else {
        panic!("scripts are to be fetched");
    };
    assert_eq!(wave, ["http://a.test/main.mjs", "http://a.test/other.js"]);
    assert_eq!(batch.in_flight, 2);

    let step = batch.answer(
        "http://a.test/main.mjs",
        loaded(
            "import './lib.mjs'",
            &[
                "http://a.test/lib.mjs",
                "http://a.test/main.mjs",
                "http://a.test/lib.mjs",
                "http://a.test/other.js",
            ],
        ),
    );
    assert!(matches!(step, PrefetchStep::Fetch(wave) if wave == ["http://a.test/lib.mjs"]));
    let step = batch.answer("http://a.test/other.js", None);
    assert!(matches!(step, PrefetchStep::Fetch(wave) if wave.is_empty()));
    let step = batch.answer("http://a.test/lib.mjs", loaded("export {}", &["http://a.test/main.mjs"]));
    let PrefetchStep::Finished(shown, sources) = step else {
        panic!("everything has been answered");
    };
    assert_eq!(shown, page());
    assert_eq!(
        find_source(&sources, "http://a.test/main.mjs"),
        Some(String::from("import './lib.mjs'"))
    );
    assert_eq!(find_source(&sources, "http://a.test/lib.mjs"), Some(String::from("export {}")));
    assert_eq!(find_source(&sources, "http://a.test/other.js"), None);
    assert_eq!(batch.in_flight, 0);
    assert!(batch.page.is_none());
}

#[test]
fn every_script_is_asked_for_once_and_the_page_handed_on_once() {
    let graph = [
        ("http://a.test/a.mjs", vec!["http://a.test/b.mjs", "http://a.test/c.mjs"]),
        ("http://a.test/b.mjs", vec!["http://a.test/c.mjs", "http://a.test/a.mjs"]),
        ("http://a.test/c.mjs", vec!["http://a.test/d.mjs", "http://a.test/gone.mjs"]),
        ("http://a.test/d.mjs", vec!["http://a.test/b.mjs"]),
    ];
    for newest_first in [false, true] {
        let PrefetchStart::Fetch(mut batch, wave) =
            PrefetchBatch::begin(page(), &vec![script("http://a.test/a.mjs")], &vec![])
        else {
            panic!("a script is to be fetched");
        };
        let mut asked = wave.clone();
        let mut open = wave;
        let mut finished = Vec::new();
        while !open.is_empty() {
            assert!(finished.is_empty());
            let at = if newest_first { open.len() - 1 } else { 0 };
            let url = open.remove(at);
            let answer = graph
                .iter()
                .find(|(name, _)| *name == url)
                .and_then(|(name, imports)| loaded(name, imports));
            match batch.answer(&url, answer) {
                PrefetchStep::Fetch(wave) => {
                    asked.extend(wave.clone());
                    open.extend(wave);
                }
                PrefetchStep::Finished(_, sources) => finished.push(sources),
            }
        }
        asked.sort();
        assert_eq!(
            asked,
            [
                "http://a.test/a.mjs",
                "http://a.test/b.mjs",
                "http://a.test/c.mjs",
                "http://a.test/d.mjs",
                "http://a.test/gone.mjs",
            ]
        );
        assert_eq!(finished.len(), 1);
        assert_eq!(finished[0].len(), 4);
        for (name, _) in &graph {
            assert_eq!(find_source(&finished[0], name), Some(String::from(*name)));
        }
    }
}

#[test]
fn the_later_source_counts() {
    let source = |text: &str| ScriptSource { url: String::from("u"), text: String::from(text) };
    let sources = vec![source("first"), source("second")];
    assert_eq!(find_source(&sources, "u"), Some(String::from("second")));
    assert_eq!(find_source(&vec![], "u"), None);
}

#[test]
fn imports_are_resolved_and_sifted() {
    let specifiers = ["./lib.mjs", "data:text/javascript,1", "bare", "https://b.test/x"]
        .map(String::from)
        .to_vec();
    assert_eq!(
        resolve_imports("http://a.test/js/main.mjs", &specifiers),
        ["http://a.test/js/lib.mjs", "http://a.test/js/bare", "https://b.test/x"]
    );
}
