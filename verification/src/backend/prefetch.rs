//! Fetching the scripts of a page before it runs: the scripts that the page
//! names, those that they import, and so on, each of them once.

use crate::backend::history::HistoryAction;
use crate::location::{
    fetches_pages, is_web_scheme, joined_url, module_target, optional_text, parsed_url,
    resolve_module_url,
};
use crate::network::FetchResponse;
use crate::text::{copy_of, same_text};
use vstd::prelude::*;

verus! {

/// A page that has arrived and is not shown yet.
#[derive(Debug, PartialEq)]
pub struct PendingPage {
    /// The load that the page belongs to.
    pub generation: u64,
    pub requested_url: String,
    pub history_action: HistoryAction,
    pub response: FetchResponse,
}

/// A script that a page names, with its URL taken apart.
#[derive(Debug, PartialEq, Eq)]
pub struct ScriptUrl {
    pub scheme: String,
    pub href: String,
}

/// The source of a script.
#[derive(Debug, PartialEq, Eq)]
pub struct ScriptSource {
    pub url: String,
    pub text: String,
}

/// The sources of scripts by their URLs; of two for the same URL the later one
/// counts.
pub open spec fn source_map(sources: Seq<ScriptSource>) -> Map<Seq<char>, Seq<char>>
    decreases sources.len(),
{
    if sources.len() == 0 {
        Map::empty()
    } else {
        source_map(sources.drop_last()).insert(sources.last().url@, sources.last().text@)
    }
}

/// The source of the script at a URL, if it has been fetched.
pub fn find_source(sources: &Vec<ScriptSource>, url: &str) -> (result: Option<String>)
    ensures
        result is Some <==> source_map(sources@).contains_key(url@),
        result matches Some(text) ==> text@ == source_map(sources@)[url@],
{
    let mut left: usize = sources.len();
    assert(sources@.take(left as int) =~= sources@);
    while left > 0
        invariant
            left <= sources.len(),
            source_map(sources@.take(left as int)).contains_key(url@) <==> source_map(
                sources@,
            ).contains_key(url@),
            source_map(sources@).contains_key(url@) ==> source_map(sources@.take(left as int))[url@]
                == source_map(sources@)[url@],
        decreases left,
    {
        let ghost part = sources@.take(left as int);
        assert(part.drop_last() =~= sources@.take(left - 1));
        left -= 1;
        if same_text(sources[left].url.as_str(), url) {
            return Some(copy_of(sources[left].text.as_str()));
        }
    }
    None
}

/// Texts as plain values.
pub open spec fn texts(strings: Seq<String>) -> Seq<Seq<char>> {
    strings.map_values(|text: String| text@)
}

/// Whether a text is one of those in a list.
fn listed(list: &Vec<String>, text: &str) -> (result: bool)
    ensures
        result == texts(list@).contains(text@),
{
    let mut i: usize = 0;
    while i < list.len()
        invariant
            i <= list.len(),
            forall|j: int| 0 <= j < i ==> (#[trigger] texts(list@)[j]) != text@,
        decreases list.len() - i,
    {
        if same_text(list[i].as_str(), text) {
            assert(texts(list@)[i as int] == text@);
            return true;
        }
        i += 1;
    }
    false
}

/// The list with `url` at its end, unless it is there already.
pub open spec fn with_new(seen: Seq<Seq<char>>, url: Seq<char>) -> Seq<Seq<char>> {
    if seen.contains(url) {
        seen
    } else {
        seen.push(url)
    }
}

/// The URLs seen, once the given ones have been looked at: they are added in
/// their order, each once.
pub open spec fn with_urls(seen: Seq<Seq<char>>, urls: Seq<Seq<char>>) -> Seq<Seq<char>>
    decreases urls.len(),
{
    if urls.len() == 0 {
        seen
    } else {
        with_new(with_urls(seen, urls.drop_last()), urls.last())
    }
}

/// The URLs of the scripts that can be fetched.
pub open spec fn web_scripts(scripts: Seq<ScriptUrl>) -> Seq<Seq<char>>
    decreases scripts.len(),
{
    if scripts.len() == 0 {
        Seq::empty()
    } else {
        let rest = web_scripts(scripts.drop_last());
        if is_web_scheme(scripts.last().scheme@) {
            rest.push(scripts.last().href@)
        } else {
            rest
        }
    }
}

/// What a module specifier in the script or page at `base` refers to.
pub open spec fn resolved(base: Seq<char>, specifier: Seq<char>) -> Option<Seq<char>> {
    module_target(parsed_url(specifier), joined_url(base, specifier))
}

/// What the module specifiers in the script or page at `base` refer to, as far
/// as it can be fetched.
pub open spec fn resolved_imports(base: Seq<char>, specifiers: Seq<String>) -> Seq<Seq<char>>
    decreases specifiers.len(),
{
    if specifiers.len() == 0 {
        Seq::empty()
    } else {
        let rest = resolved_imports(base, specifiers.drop_last());
        match resolved(base, specifiers.last()@) {
            Some(url) => rest.push(url),
            None => rest,
        }
    }
}

/// Resolve module specifiers in the script or page at `base`; what cannot be
/// fetched is left out.
pub fn resolve_imports(base: &str, specifiers: &Vec<String>) -> (result: Vec<String>)
    ensures
        texts(result@) == resolved_imports(base@, specifiers@),
{
    let mut result: Vec<String> = Vec::new();
    let mut i: usize = 0;
    assert(texts(result@) =~= resolved_imports(base@, specifiers@.take(0)));
    while i < specifiers.len()
        invariant
            i <= specifiers.len(),
            texts(result@) == resolved_imports(base@, specifiers@.take(i as int)),
        decreases specifiers.len() - i,
    {
        assert(specifiers@.take(i + 1).drop_last() =~= specifiers@.take(i as int));
        if let Some(url) = resolve_module_url(base, specifiers[i].as_str()) {
            let ghost before = texts(result@);
            let ghost target = url@;
            result.push(url);
            assert(texts(result@) =~= before.push(target));
        }
        i += 1;
    }
    assert(specifiers@.take(i as int) =~= specifiers@);
    result
}

fn fetchable(scripts: &Vec<ScriptUrl>) -> (result: Vec<String>)
    ensures
        texts(result@) == web_scripts(scripts@),
{
    let mut result: Vec<String> = Vec::new();
    let mut i: usize = 0;
    assert(texts(result@) =~= web_scripts(scripts@.take(0)));
    while i < scripts.len()
        invariant
            i <= scripts.len(),
            texts(result@) == web_scripts(scripts@.take(i as int)),
        decreases scripts.len() - i,
    {
        assert(scripts@.take(i + 1).drop_last() =~= scripts@.take(i as int));
        if fetches_pages(scripts[i].scheme.as_str()) {
            let ghost before = texts(result@);
            result.push(copy_of(scripts[i].href.as_str()));
            assert(texts(result@) =~= before.push(scripts@[i as int].href@));
        }
        i += 1;
    }
    assert(scripts@.take(i as int) =~= scripts@);
    result
}

/// Note a URL; says whether it is a new one.
fn note(seen: &mut Vec<String>, url: &str) -> (new: bool)
    ensures
        new == !texts(old(seen)@).contains(url@),
        texts(final(seen)@) == with_new(texts(old(seen)@), url@),
        new ==> final(seen)@.len() == old(seen)@.len() + 1,
        !new ==> *final(seen) == *old(seen),
{
    if listed(seen, url) {
        return false;
    }
    seen.push(copy_of(url));
    assert(texts(seen@) =~= texts(old(seen)@).push(url@));
    true
}

/// The part of a list that comes after its first `from` entries.
fn tail(list: &Vec<String>, from: usize) -> (result: Vec<String>)
    requires
        from <= list.len(),
    ensures
        texts(result@) == texts(list@).skip(from as int),
{
    let mut result: Vec<String> = Vec::new();
    let mut i: usize = from;
    assert(texts(result@) =~= texts(list@).subrange(from as int, from as int));
    while i < list.len()
        invariant
            from <= i <= list.len(),
            texts(result@) == texts(list@).subrange(from as int, i as int),
        decreases list.len() - i,
    {
        let ghost before = texts(result@);
        result.push(copy_of(list[i].as_str()));
        assert(texts(result@) =~= before.push(texts(list@)[i as int]));
        assert(texts(list@).subrange(from as int, i + 1) =~= texts(list@).subrange(
            from as int,
            i as int,
        ).push(texts(list@)[i as int]));
        i += 1;
    }
    assert(texts(list@).subrange(from as int, i as int) =~= texts(list@).skip(from as int));
    result
}

fn note_all(seen: &mut Vec<String>, urls: &Vec<String>)
    ensures
        texts(final(seen)@) == with_urls(texts(old(seen)@), texts(urls@)),
{
    let mut i: usize = 0;
    assert(texts(urls@).take(0) =~= Seq::empty());
    while i < urls.len()
        invariant
            i <= urls.len(),
            texts(seen@) == with_urls(texts(old(seen)@), texts(urls@).take(i as int)),
        decreases urls.len() - i,
    {
        assert(texts(urls@).take(i + 1).drop_last() =~= texts(urls@).take(i as int));
        note(seen, urls[i].as_str());
        i += 1;
    }
    assert(texts(urls@).take(i as int) =~= texts(urls@));
}

/// Looking at URLs only ever adds to those seen, and adds none twice.
proof fn urls_extend(seen: Seq<Seq<char>>, urls: Seq<Seq<char>>)
    requires
        seen.no_duplicates(),
    ensures
        with_urls(seen, urls).no_duplicates(),
        seen.len() <= with_urls(seen, urls).len(),
        with_urls(seen, urls).take(seen.len() as int) == seen,
    decreases urls.len(),
{
    if urls.len() > 0 {
        urls_extend(seen, urls.drop_last());
        let rest = with_urls(seen, urls.drop_last());
        let all = with_urls(seen, urls);
        assert(all.take(seen.len() as int) =~= rest.take(seen.len() as int));
    } else {
        assert(seen.take(seen.len() as int) =~= seen);
    }
}

/// A script that has been fetched, with what it imports.
#[derive(Debug, PartialEq, Eq)]
pub struct LoadedScript {
    pub text: String,
    /// The URLs of the modules that it imports.
    pub imports: Vec<String>,
}

/// A script that has been fetched, as plain values.
pub ghost struct ScriptParts {
    pub text: Seq<char>,
    pub imports: Seq<Seq<char>>,
}

impl View for LoadedScript {
    type V = ScriptParts;

    open spec fn view(&self) -> ScriptParts {
        ScriptParts { text: self.text@, imports: texts(self.imports@) }
    }
}

/// The answer for a script: the script, or nothing where it could not be
/// fetched.
pub ghost struct ScriptAnswer {
    pub script: Seq<char>,
    pub loaded: Option<ScriptParts>,
}

/// The answer for the script at a URL, as plain values.
pub open spec fn answer_for(script: Seq<char>, loaded: Option<LoadedScript>) -> ScriptAnswer {
    ScriptAnswer {
        script,
        loaded: match loaded {
            Some(loaded) => Some(loaded@),
            None => None,
        },
    }
}

/// How far the scripts of a page have come.
pub ghost struct PrefetchState {
    /// Every URL that has been asked for, in the order of asking.
    pub seen: Seq<Seq<char>>,
    /// How many of them have not been answered.
    pub in_flight: int,
    /// The sources that have arrived, by their URLs.
    pub sources: Map<Seq<char>, Seq<char>>,
}

impl PrefetchState {
    /// Once the first scripts have been asked for.
    pub open spec fn begun(wave: Seq<Seq<char>>) -> PrefetchState {
        PrefetchState { seen: wave, in_flight: wave.len() as int, sources: Map::empty() }
    }

    /// Once an answer has come: what the script imports has been asked for,
    /// unless it was before.
    pub open spec fn after(self, answer: ScriptAnswer) -> PrefetchState {
        match answer.loaded {
            Some(loaded) => {
                let seen = with_urls(self.seen, loaded.imports);
                PrefetchState {
                    seen,
                    in_flight: self.in_flight - 1 + seen.len() - self.seen.len(),
                    sources: self.sources.insert(answer.script, loaded.text),
                }
            },
            None => PrefetchState { in_flight: self.in_flight - 1, ..self },
        }
    }

    /// Once the given answers have come, one after the other.
    pub open spec fn after_all(self, answers: Seq<ScriptAnswer>) -> PrefetchState
        decreases answers.len(),
    {
        if answers.len() == 0 {
            self
        } else {
            self.after_all(answers.drop_last()).after(answers.last())
        }
    }

    /// What is to be asked for when an answer comes.
    pub open spec fn wave_for(self, answer: ScriptAnswer) -> Seq<Seq<char>> {
        self.after(answer).seen.skip(self.seen.len() as int)
    }
}

/// The scripts of one page, on their way.
#[derive(Debug)]
pub struct PrefetchBatch {
    /// The page, until it is handed on.
    pub page: Option<PendingPage>,
    pub sources: Vec<ScriptSource>,
    /// Every URL that has been asked for.
    pub seen: Vec<String>,
    /// How many of them have not been answered.
    pub in_flight: usize,
}

/// What is to be done once a script has been answered.
#[derive(Debug)]
pub enum PrefetchStep {
    /// Fetch these scripts; there are none where others are still on their way.
    Fetch(Vec<String>),
    /// Everything is there: show the page, with these sources.
    Finished(PendingPage, Vec<ScriptSource>),
}

/// What is to be done about a page once its scripts are known.
#[derive(Debug)]
pub enum PrefetchStart {
    /// Nothing is to be fetched: show the page.
    Ready(PendingPage),
    /// Fetch these scripts first.
    Fetch(PrefetchBatch, Vec<String>),
}

/// The first scripts to fetch for a page: those that it names, and then those
/// that its own modules import.
pub open spec fn first_wave(scripts: Seq<ScriptUrl>, imports: Seq<Seq<char>>) -> Seq<Seq<char>> {
    with_urls(with_urls(Seq::empty(), web_scripts(scripts)), imports)
}

impl View for PrefetchBatch {
    type V = PrefetchState;

    open spec fn view(&self) -> PrefetchState {
        PrefetchState {
            seen: texts(self.seen@),
            in_flight: self.in_flight as int,
            sources: source_map(self.sources@),
        }
    }
}

impl PrefetchBatch {
    /// No URL is asked for twice, none is answered twice, and the page waits
    /// exactly as long as there are scripts on their way.
    pub open spec fn wf(self) -> bool {
        &&& texts(self.seen@).no_duplicates()
        &&& self.in_flight <= self.seen@.len()
        &&& self.page is Some <==> self.in_flight > 0
    }

    /// Begin with a page that names the given scripts and whose own modules
    /// import those at the given URLs.
    pub fn begin(
        page: PendingPage,
        scripts: &Vec<ScriptUrl>,
        imports: &Vec<String>,
    ) -> (result: PrefetchStart)
        ensures
            match result {
                PrefetchStart::Ready(ready) => {
                    &&& ready == page
                    &&& first_wave(scripts@, texts(imports@)).len() == 0
                },
                PrefetchStart::Fetch(batch, wave) => {
                    &&& batch.wf()
                    &&& batch.page == Some(page)
                    &&& texts(wave@) == first_wave(scripts@, texts(imports@))
                    &&& wave@.len() > 0
                    &&& batch@ == PrefetchState::begun(texts(wave@))
                },
            },
    {
        let mut seen: Vec<String> = Vec::new();
        assert(texts(seen@) =~= Seq::empty());
        let named = fetchable(scripts);
        note_all(&mut seen, &named);
        note_all(&mut seen, imports);
        proof {
            urls_extend(Seq::empty(), web_scripts(scripts@));
            urls_extend(with_urls(Seq::empty(), web_scripts(scripts@)), texts(imports@));
            assert(texts(seen@).len() == seen@.len());
        }
        if seen.is_empty() {
            return PrefetchStart::Ready(page);
        }
        let wave = tail(&seen, 0);
        proof {
            assert(texts(seen@).skip(0) =~= texts(seen@));
            assert(texts(wave@).len() == wave@.len());
        }
        let in_flight = seen.len();
        let batch = PrefetchBatch { page: Some(page), sources: Vec::new(), seen, in_flight };
        PrefetchStart::Fetch(batch, wave)
    }

    /// Take the answer for one of the scripts on their way: the script, or
    /// nothing where it could not be fetched.
    pub fn answer(&mut self, script: &str, loaded: Option<LoadedScript>) -> (result: PrefetchStep)
        requires
            old(self).wf(),
            old(self).in_flight > 0,
        ensures
            final(self).wf(),
            final(self)@.seen == old(self)@.after(answer_for(script@, loaded)).seen,
            final(self)@.in_flight == old(self)@.after(answer_for(script@, loaded)).in_flight,
            match result {
                PrefetchStep::Fetch(wave) => {
                    &&& final(self)@ == old(self)@.after(answer_for(script@, loaded))
                    &&& final(self)@.in_flight > 0
                    &&& final(self).page == old(self).page
                    &&& texts(wave@) == old(self)@.wave_for(answer_for(script@, loaded))
                },
                PrefetchStep::Finished(page, sources) => {
                    &&& final(self)@.in_flight == 0
                    &&& old(self).page == Some(page)
                    &&& source_map(sources@) == old(self)@.after(
                        answer_for(script@, loaded),
                    ).sources
                    &&& final(self).sources@.len() == 0
                },
            },
    {
        let known = self.seen.len();
        match loaded {
            Some(loaded) => {
                proof {
                    urls_extend(texts(self.seen@), texts(loaded.imports@));
                }
                let ghost before = self.sources@;
                note_all(&mut self.seen, &loaded.imports);
                self.sources.push(ScriptSource { url: copy_of(script), text: loaded.text });
                assert(self.sources@.drop_last() =~= before);
            },
            None => {},
        }
        proof {
            assert(texts(self.seen@).len() == self.seen@.len());
            assert(texts(old(self).seen@).len() == old(self).seen@.len());
        }
        let added: usize = self.seen.len() - known;
        self.in_flight = self.in_flight - 1 + added;
        if self.in_flight == 0 {
            let page = self.page.take();
            let mut sources: Vec<ScriptSource> = Vec::new();
            std::mem::swap(&mut sources, &mut self.sources);
            return PrefetchStep::Finished(page.unwrap(), sources);
        }
        PrefetchStep::Fetch(tail(&self.seen, known))
    }
}

/// What a script imports is asked for, unless it has been already: nothing is
/// left out.
pub proof fn imports_are_followed(seen: Seq<Seq<char>>, urls: Seq<Seq<char>>, i: int)
    requires
        0 <= i < urls.len(),
    ensures
        with_urls(seen, urls).contains(urls[i]),
    decreases urls.len(),
{
    let rest = with_urls(seen, urls.drop_last());
    let all = with_urls(seen, urls);
    if i == urls.len() - 1 {
        if !rest.contains(urls[i]) {
            assert(all == rest.push(urls[i]));
            assert(all[rest.len() as int] == urls[i]);
        }
    } else {
        imports_are_followed(seen, urls.drop_last(), i);
        let at = choose|at: int| 0 <= at < rest.len() && rest[at] == urls[i];
        assert(all[at] == urls[i]);
    }
}

/// What is asked for at the beginning holds nothing twice.
proof fn first_wave_is_distinct(scripts: Seq<ScriptUrl>, imports: Seq<Seq<char>>)
    ensures
        first_wave(scripts, imports).no_duplicates(),
{
    urls_extend(Seq::empty(), web_scripts(scripts));
    urls_extend(with_urls(Seq::empty(), web_scripts(scripts)), imports);
}

/// An answer adds to what has been asked for, and adds nothing twice.
proof fn answers_extend(state: PrefetchState, answer: ScriptAnswer)
    requires
        state.seen.no_duplicates(),
    ensures
        state.after(answer).seen.no_duplicates(),
        state.seen.len() <= state.after(answer).seen.len(),
        state.after(answer).seen.take(state.seen.len() as int) == state.seen,
{
    match answer.loaded {
        Some(loaded) => {
            urls_extend(state.seen, loaded.imports);
        },
        None => {
            assert(state.seen.take(state.seen.len() as int) =~= state.seen);
        },
    }
}

/// However the scripts of a page are answered, each URL is asked for once: what
/// has been asked for, first and with every answer, holds nothing twice and is
/// what was asked for before with what the last answer led to.  As many are on
/// their way as have been asked for and not been answered.
pub proof fn every_script_is_fetched_once(
    scripts: Seq<ScriptUrl>,
    imports: Seq<Seq<char>>,
    answers: Seq<ScriptAnswer>,
)
    ensures
        ({
            let start = PrefetchState::begun(first_wave(scripts, imports));
            let end = start.after_all(answers);
            &&& end.seen.no_duplicates()
            &&& end.in_flight == end.seen.len() - answers.len()
            &&& answers.len() > 0 ==> end.seen == start.after_all(answers.drop_last()).seen
                + start.after_all(answers.drop_last()).wave_for(answers.last())
        }),
    decreases answers.len(),
{
    let start = PrefetchState::begun(first_wave(scripts, imports));
    if answers.len() == 0 {
        first_wave_is_distinct(scripts, imports);
    } else {
        let before = start.after_all(answers.drop_last());
        every_script_is_fetched_once(scripts, imports, answers.drop_last());
        answers_extend(before, answers.last());
        let all = before.after(answers.last()).seen;
        assert(all =~= all.take(before.seen.len() as int) + all.skip(before.seen.len() as int));
    }
}

/// What has been asked for stays so, whatever answers come after.
proof fn seen_urls_stay(state: PrefetchState, answer: ScriptAnswer, url: Seq<char>)
    requires
        state.seen.no_duplicates(),
        state.seen.contains(url),
    ensures
        state.after(answer).seen.contains(url),
{
    answers_extend(state, answer);
    let i = choose|i: int| 0 <= i < state.seen.len() && state.seen[i] == url;
    assert(state.after(answer).seen.take(state.seen.len() as int)[i] == url);
    assert(state.after(answer).seen[i] == url);
}

/// Whatever a script imports has been asked for from the moment the script
/// arrives.
pub proof fn every_import_is_fetched(
    scripts: Seq<ScriptUrl>,
    imports: Seq<Seq<char>>,
    answers: Seq<ScriptAnswer>,
    i: int,
    k: int,
)
    requires
        0 <= i < answers.len(),
        answers[i].loaded matches Some(loaded) && 0 <= k < loaded.imports.len(),
    ensures
        PrefetchState::begun(first_wave(scripts, imports)).after_all(answers).seen.contains(
            answers[i].loaded->Some_0.imports[k],
        ),
    decreases answers.len(),
{
    let start = PrefetchState::begun(first_wave(scripts, imports));
    let before = start.after_all(answers.drop_last());
    let loaded = answers[i].loaded->Some_0;
    if i == answers.len() - 1 {
        imports_are_followed(before.seen, loaded.imports, k);
    } else {
        every_script_is_fetched_once(scripts, imports, answers.drop_last());
        assert(answers.drop_last()[i] == answers[i]);
        every_import_is_fetched(scripts, imports, answers.drop_last(), i, k);
        seen_urls_stay(before, answers.last(), loaded.imports[k]);
    }
}

/// The URLs that have been answered.
pub open spec fn answered_urls(answers: Seq<ScriptAnswer>) -> Seq<Seq<char>> {
    answers.map_values(|answer: ScriptAnswer| answer.script)
}

/// Whether answers could come in this order: each is for a URL that has been
/// asked for by then, and none is for the same URL as another.
pub open spec fn are_answers(start: PrefetchState, answers: Seq<ScriptAnswer>) -> bool {
    &&& answered_urls(answers).no_duplicates()
    &&& forall|i: int|
        0 <= i < answers.len() ==> start.after_all(#[trigger] answers.take(i)).seen.contains(
            answers[i].script,
        )
}

/// All that has been answered has been asked for.
proof fn answered_urls_were_seen(
    scripts: Seq<ScriptUrl>,
    imports: Seq<Seq<char>>,
    answers: Seq<ScriptAnswer>,
    i: int,
)
    requires
        are_answers(PrefetchState::begun(first_wave(scripts, imports)), answers),
        0 <= i < answers.len(),
    ensures
        PrefetchState::begun(first_wave(scripts, imports)).after_all(answers).seen.contains(
            answers[i].script,
        ),
    decreases answers.len(),
{
    let start = PrefetchState::begun(first_wave(scripts, imports));
    let rest = answers.drop_last();
    let before = start.after_all(rest);
    every_script_is_fetched_once(scripts, imports, rest);
    assert(answers.take(answers.len() - 1) =~= rest);
    if i < answers.len() - 1 {
        answers_before_the_last(start, answers);
        assert(rest[i] == answers[i]);
        answered_urls_were_seen(scripts, imports, rest, i);
    }
    seen_urls_stay(before, answers.last(), answers[i].script);
}

/// Answers without the last of them could have come too.
proof fn answers_before_the_last(start: PrefetchState, answers: Seq<ScriptAnswer>)
    requires
        are_answers(start, answers),
        answers.len() > 0,
    ensures
        are_answers(start, answers.drop_last()),
{
    let rest = answers.drop_last();
    assert forall|i: int, j: int|
        0 <= i < rest.len() && 0 <= j < rest.len() && i != j implies answered_urls(rest)[i]
        != answered_urls(rest)[j] by {
        assert(answered_urls(rest)[i] == answered_urls(answers)[i]);
        assert(answered_urls(rest)[j] == answered_urls(answers)[j]);
    }
    assert forall|i: int| 0 <= i < rest.len() implies start.after_all(
        #[trigger] rest.take(i),
    ).seen.contains(rest[i].script) by {
        assert(rest.take(i) =~= answers.take(i));
        assert(rest[i] == answers[i]);
    }
}

/// The page is handed on once, and at the right time.  Nothing is on its way
/// exactly when all that has been asked for has been answered; and as long as
/// there is an answer to come, something is on its way, so that no page is
/// handed on before its last answer or twice.
pub proof fn pages_are_handed_on_once(
    scripts: Seq<ScriptUrl>,
    imports: Seq<Seq<char>>,
    answers: Seq<ScriptAnswer>,
)
    requires
        are_answers(PrefetchState::begun(first_wave(scripts, imports)), answers),
    ensures
        ({
            let start = PrefetchState::begun(first_wave(scripts, imports));
            let end = start.after_all(answers);
            &&& end.in_flight >= 0
            &&& end.in_flight == 0 <==> forall|url: Seq<char>| #[trigger]
                end.seen.contains(url) ==> answered_urls(answers).contains(url)
            &&& forall|i: int|
                0 <= i < answers.len() ==> start.after_all(#[trigger] answers.take(i)).in_flight > 0
        }),
    decreases answers.len(),
{
    broadcast use vstd::seq_lib::seq_to_set_is_finite;

    let start = PrefetchState::begun(first_wave(scripts, imports));
    let end = start.after_all(answers);
    let asked = end.seen.to_set();
    let done = answered_urls(answers).to_set();
    every_script_is_fetched_once(scripts, imports, answers);
    end.seen.unique_seq_to_set();
    answered_urls(answers).unique_seq_to_set();
    assert forall|url: Seq<char>| done.contains(url) implies asked.contains(url) by {
        let i = choose|i: int|
            0 <= i < answers.len() && #[trigger] answered_urls(answers)[i] == url;
        answered_urls_were_seen(scripts, imports, answers, i);
    }
    vstd::set_lib::lemma_len_subset(done, asked);
    if end.in_flight == 0 {
        vstd::set_lib::lemma_subset_equality(done, asked);
        assert forall|url: Seq<char>| #[trigger] end.seen.contains(url) implies answered_urls(
            answers,
        ).contains(url) by {
            assert(asked.contains(url));
            assert(done.contains(url));
        }
    }
    if forall|url: Seq<char>| #[trigger]
        end.seen.contains(url) ==> answered_urls(answers).contains(url) {
        assert forall|url: Seq<char>| asked.contains(url) implies done.contains(url) by {
            assert(end.seen.contains(url));
        }
        vstd::set_lib::lemma_len_subset(asked, done);
    }
    if answers.len() > 0 {
        let rest = answers.drop_last();
        let last = answers.len() - 1;
        answers_before_the_last(start, answers);
        pages_are_handed_on_once(scripts, imports, rest);
        assert(answers.take(last) =~= rest);
        assert(start.after_all(rest).in_flight > 0) by {
            let url = answers[last].script;
            assert(start.after_all(rest).seen.contains(url));
            if answered_urls(rest).contains(url) {
                let i = choose|i: int|
                    0 <= i < rest.len() && #[trigger] answered_urls(rest)[i] == url;
                assert(answered_urls(answers)[i] == url);
                assert(answered_urls(answers)[last] == url);
            }
        }
        assert forall|i: int| 0 <= i < answers.len() implies start.after_all(
            #[trigger] answers.take(i),
        ).in_flight > 0 by {
            if i < last {
                assert(answers.take(i) =~= rest.take(i));
            }
        }
    }
}

/// What a page is handed on with is what was loaded: the source of every script
/// that arrived, and no other.
pub proof fn sources_are_those_that_arrived(
    scripts: Seq<ScriptUrl>,
    imports: Seq<Seq<char>>,
    answers: Seq<ScriptAnswer>,
    url: Seq<char>,
    text: Seq<char>,
)
    requires
        answered_urls(answers).no_duplicates(),
    ensures
        ({
            let end = PrefetchState::begun(first_wave(scripts, imports)).after_all(answers);
            end.sources.contains_key(url) && end.sources[url] == text <==> exists|i: int|
                0 <= i < answers.len() && (#[trigger] answers[i]).script == url && (
                answers[i].loaded matches Some(loaded) && loaded.text == text)
        }),
    decreases answers.len(),
{
    let start = PrefetchState::begun(first_wave(scripts, imports));
    let end = start.after_all(answers);
    if answers.len() > 0 {
        let rest = answers.drop_last();
        let last = answers.len() - 1;
        let before = start.after_all(rest);
        assert forall|i: int, j: int|
            0 <= i < rest.len() && 0 <= j < rest.len() && i != j implies answered_urls(rest)[i]
            != answered_urls(rest)[j] by {
            assert(answered_urls(rest)[i] == answered_urls(answers)[i]);
            assert(answered_urls(rest)[j] == answered_urls(answers)[j]);
        }
        sources_are_those_that_arrived(scripts, imports, rest, url, text);
        assert forall|i: int| 0 <= i < last implies (#[trigger] answers[i]).script
            != answers[last].script by {
            assert(answered_urls(answers)[i] == answers[i].script);
            assert(answered_urls(answers)[last] == answers[last].script);
        }
        if end.sources.contains_key(url) && end.sources[url] == text {
            if answers[last].loaded is Some && answers[last].script == url {
                assert(answers[last].loaded->Some_0.text == text);
            } else {
                let i = choose|i: int|
                    0 <= i < rest.len() && (#[trigger] rest[i]).script == url && (
                    rest[i].loaded matches Some(loaded) && loaded.text == text);
                assert(answers[i] == rest[i]);
            }
        }
        if exists|i: int|
            0 <= i < answers.len() && (#[trigger] answers[i]).script == url && (
            answers[i].loaded matches Some(loaded) && loaded.text == text) {
            let i = choose|i: int|
                0 <= i < answers.len() && (#[trigger] answers[i]).script == url && (
                answers[i].loaded matches Some(loaded) && loaded.text == text);
            if i < last {
                assert(rest[i] == answers[i]);
            }
        }
    }
}

/// Whatever is fetched as an import is what some specifier refers to.
pub proof fn imports_come_from_specifiers(base: Seq<char>, specifiers: Seq<String>, i: int)
    requires
        0 <= i < resolved_imports(base, specifiers).len(),
    ensures
        exists|k: int|
            0 <= k < specifiers.len() && resolved(base, (#[trigger] specifiers[k])@) == Some(
                resolved_imports(base, specifiers)[i],
            ),
    decreases specifiers.len(),
{
    let rest = resolved_imports(base, specifiers.drop_last());
    let last = specifiers.len() - 1;
    if i < rest.len() {
        imports_come_from_specifiers(base, specifiers.drop_last(), i);
        let k = choose|k: int|
            0 <= k < specifiers.drop_last().len() && resolved(
                base,
                (#[trigger] specifiers.drop_last()[k])@,
            ) == Some(rest[i]);
        assert(specifiers.drop_last()[k] == specifiers[k]);
        assert(resolved(base, specifiers[k]@) == Some(resolved_imports(base, specifiers)[i]));
    } else {
        assert(resolved(base, specifiers[last]@) == Some(resolved_imports(base, specifiers)[i]));
    }
}

/// Looking at URLs adds those that have not been seen, and no others.
proof fn urls_are_all_noted(seen: Seq<Seq<char>>, urls: Seq<Seq<char>>, url: Seq<char>)
    ensures
        with_urls(seen, urls).contains(url) <==> seen.contains(url) || urls.contains(url),
    decreases urls.len(),
{
    if urls.len() > 0 {
        let rest = with_urls(seen, urls.drop_last());
        urls_are_all_noted(seen, urls.drop_last(), url);
        assert(urls.contains(url) <==> urls.drop_last().contains(url) || url == urls.last()) by {
            if urls.drop_last().contains(url) {
                let i = choose|i: int| 0 <= i < urls.len() - 1 && urls.drop_last()[i] == url;
                assert(urls[i] == url);
            }
            if url == urls.last() {
                assert(urls[urls.len() - 1] == url);
            }
            if urls.contains(url) && url != urls.last() {
                let i = choose|i: int| 0 <= i < urls.len() && urls[i] == url;
                assert(urls.drop_last()[i] == url);
            }
        }
        assert(rest.push(urls.last()).contains(url) <==> rest.contains(url) || url == urls.last())
            by {
            if rest.contains(url) {
                let i = choose|i: int| 0 <= i < rest.len() && rest[i] == url;
                assert(rest.push(urls.last())[i] == url);
            }
            assert(rest.push(urls.last())[rest.len() as int] == urls.last());
        }
    }
}

/// The scripts of a page that can be fetched are those by `http` and `https`.
proof fn web_scripts_are_all_named(scripts: Seq<ScriptUrl>, url: Seq<char>)
    ensures
        web_scripts(scripts).contains(url) <==> exists|i: int|
            0 <= i < scripts.len() && (#[trigger] scripts[i]).href@ == url && (scripts[i].scheme@
                == "http"@ || scripts[i].scheme@ == "https"@),
    decreases scripts.len(),
{
    if scripts.len() > 0 {
        let before = scripts.drop_last();
        let last = scripts.last();
        let rest = web_scripts(before);
        web_scripts_are_all_named(before, url);
        assert(rest.push(last.href@).contains(url) <==> rest.contains(url) || url == last.href@) by {
            if rest.contains(url) {
                let i = choose|i: int| 0 <= i < rest.len() && rest[i] == url;
                assert(rest.push(last.href@)[i] == url);
            }
            assert(rest.push(last.href@)[rest.len() as int] == last.href@);
        }
        if exists|i: int|
            0 <= i < before.len() && (#[trigger] before[i]).href@ == url && (before[i].scheme@
                == "http"@ || before[i].scheme@ == "https"@) {
            let i = choose|i: int|
                0 <= i < before.len() && (#[trigger] before[i]).href@ == url && (before[i].scheme@
                    == "http"@ || before[i].scheme@ == "https"@);
            assert(scripts[i] == before[i]);
        }
        if exists|i: int|
            0 <= i < scripts.len() && (#[trigger] scripts[i]).href@ == url && (scripts[i].scheme@
                == "http"@ || scripts[i].scheme@ == "https"@) {
            let i = choose|i: int|
                0 <= i < scripts.len() && (#[trigger] scripts[i]).href@ == url && (
                scripts[i].scheme@ == "http"@ || scripts[i].scheme@ == "https"@);
            if i < before.len() {
                assert(before[i] == scripts[i]);
            }
        }
        if web_scripts(scripts).contains(url) && !rest.contains(url) {
            assert(scripts[scripts.len() - 1] == last);
        }
    }
}

/// The first scripts that are fetched for a page are all those that it names by
/// `http` or `https`, whatever else it names, and all that its own modules
/// import; nothing else is among them.
pub proof fn named_scripts_are_fetched_first(
    scripts: Seq<ScriptUrl>,
    imports: Seq<Seq<char>>,
    url: Seq<char>,
)
    ensures
        first_wave(scripts, imports).contains(url) <==> {
            ||| imports.contains(url)
            ||| exists|i: int|
                0 <= i < scripts.len() && (#[trigger] scripts[i]).href@ == url && (
                scripts[i].scheme@ == "http"@ || scripts[i].scheme@ == "https"@)
        },
{
    let named = web_scripts(scripts);
    web_scripts_are_all_named(scripts, url);
    urls_are_all_noted(Seq::empty(), named, url);
    urls_are_all_noted(with_urls(Seq::empty(), named), imports, url);
}

/// Scripts are fetched in the order in which they are named, those of the page
/// before the imports: one more script or import comes last, or is there
/// already.
pub proof fn scripts_are_fetched_in_order(
    scripts: Seq<ScriptUrl>,
    script: ScriptUrl,
    imports: Seq<Seq<char>>,
    url: Seq<char>,
)
    ensures
        first_wave(Seq::empty(), Seq::empty()) == Seq::<Seq<char>>::empty(),
        script.scheme@ == "http"@ || script.scheme@ == "https"@ ==> first_wave(
            scripts.push(script),
            Seq::empty(),
        ) == if first_wave(scripts, Seq::empty()).contains(script.href@) {
            first_wave(scripts, Seq::empty())
        } else {
            first_wave(scripts, Seq::empty()).push(script.href@)
        },
        script.scheme@ != "http"@ && script.scheme@ != "https"@ ==> first_wave(
            scripts.push(script),
            Seq::empty(),
        ) == first_wave(scripts, Seq::empty()),
        first_wave(scripts, imports.push(url)) == if first_wave(scripts, imports).contains(url) {
            first_wave(scripts, imports)
        } else {
            first_wave(scripts, imports).push(url)
        },
{
    assert(scripts.push(script).drop_last() =~= scripts);
    assert(imports.push(url).drop_last() =~= imports);
    let named = web_scripts(scripts);
    assert(named.push(script.href@).drop_last() =~= named);
}

/// Everything that a script imports and that can be fetched is found, in the
/// order of the specifiers: one more specifier adds what it refers to at the
/// end, and nothing where it refers to nothing.
pub proof fn specifiers_are_resolved_in_order(
    base: Seq<char>,
    specifiers: Seq<String>,
    specifier: String,
)
    ensures
        resolved_imports(base, Seq::empty()) == Seq::<Seq<char>>::empty(),
        resolved_imports(base, specifiers.push(specifier)) == resolved_imports(base, specifiers) + (
        match resolved(base, specifier@) {
            Some(url) => seq![url],
            None => Seq::empty(),
        }),
{
    assert(specifiers.push(specifier).drop_last() =~= specifiers);
    assert(resolved_imports(base, specifiers.push(specifier)) =~= resolved_imports(
        base,
        specifiers,
    ) + (match resolved(base, specifier@) {
        Some(url) => seq![url],
        None => Seq::empty(),
    }));
}

/// A specifier that is a URL of the web refers to that URL wherever it stands;
/// one that is a URL of another kind refers to nothing that is fetched; and one
/// that is no URL by itself refers to what it comes to in the script.
pub proof fn specifiers_refer_by_themselves_or_to_the_script(
    base: Seq<char>,
    specifier: Seq<char>,
)
    ensures
        match parsed_url(specifier) {
            Ok(page) => resolved(base, specifier) == if page.scheme == "http"@ || page.scheme
                == "https"@ {
                Some(page.href)
            } else {
                None
            },
            Err(_) => match joined_url(base, specifier) {
                Some((href, scheme)) => resolved(base, specifier) == if scheme == "http"@ || scheme
                    == "https"@ {
                    Some(href)
                } else {
                    None
                },
                None => resolved(base, specifier) is None,
            },
        },
{
}

/// The source of a script is the last one that was kept for its URL.
pub proof fn the_last_source_counts(sources: Seq<ScriptSource>, i: int)
    requires
        0 <= i < sources.len(),
        forall|j: int| i < j < sources.len() ==> (#[trigger] sources[j]).url@ != sources[i].url@,
    ensures
        source_map(sources).contains_key(sources[i].url@),
        source_map(sources)[sources[i].url@] == sources[i].text@,
    decreases sources.len(),
{
    let rest = sources.drop_last();
    if i < rest.len() {
        assert forall|j: int| i < j < rest.len() implies (#[trigger] rest[j]).url@
            != rest[i].url@ by {
            assert(rest[j] == sources[j]);
        }
        assert(rest[i] == sources[i]);
        assert(sources[sources.len() - 1].url@ != sources[i].url@);
        the_last_source_counts(rest, i);
    }
}

/// There is a source only for a URL that one was kept for.
pub proof fn sources_are_kept_ones(sources: Seq<ScriptSource>, url: Seq<char>)
    requires
        source_map(sources).contains_key(url),
    ensures
        exists|i: int| 0 <= i < sources.len() && (#[trigger] sources[i]).url@ == url,
    decreases sources.len(),
{
    if sources.len() > 0 {
        let rest = sources.drop_last();
        if sources.last().url@ == url {
            assert(sources[sources.len() - 1].url@ == url);
        } else {
            sources_are_kept_ones(rest, url);
            let i = choose|i: int| 0 <= i < rest.len() && (#[trigger] rest[i]).url@ == url;
            assert(sources[i].url@ == url);
        }
    }
}

/// Nothing is fetched that is neither among the first scripts nor imported by a
/// script that has arrived; where a script could not be fetched, nothing follows
/// it.
pub proof fn nothing_else_is_fetched(state: PrefetchState, answer: ScriptAnswer, url: Seq<char>)
    requires
        state.after(answer).seen.contains(url),
        !state.seen.contains(url),
    ensures
        answer.loaded matches Some(loaded) && loaded.imports.contains(url),
{
    match answer.loaded {
        Some(loaded) => {
            urls_are_all_noted(state.seen, loaded.imports, url);
        },
        None => {},
    }
}

/// An answer is for its own script, and brings its text and its imports exactly
/// if the script was loaded.
pub proof fn answers_bring_what_was_loaded(script: Seq<char>, loaded: Option<LoadedScript>)
    ensures
        answer_for(script, loaded).script == script,
        answer_for(script, loaded).loaded is Some <==> loaded is Some,
        loaded matches Some(found) ==> {
            let parts = answer_for(script, loaded).loaded->Some_0;
            &&& parts.text == found.text@
            &&& parts.imports.len() == found.imports@.len()
            &&& forall|i: int|
                0 <= i < found.imports@.len() ==> #[trigger] parts.imports[i]
                    == found.imports@[i]@
        },
{
}

/// To begin with, everything that was asked for is on its way and nothing has
/// arrived; each answer takes one script off the way and puts those on it that it
/// leads to.
pub proof fn answers_are_counted(
    state: PrefetchState,
    answer: ScriptAnswer,
    wave: Seq<Seq<char>>,
)
    requires
        state.seen.no_duplicates(),
    ensures
        PrefetchState::begun(wave).in_flight == wave.len(),
        PrefetchState::begun(wave).seen == wave,
        PrefetchState::begun(wave).sources.dom() == Set::<Seq<char>>::empty(),
        state.after(answer).in_flight == state.in_flight - 1 + state.wave_for(answer).len(),
        state.after(answer).seen == state.seen + state.wave_for(answer),
{
    answers_extend(state, answer);
    let all = state.after(answer).seen;
    assert(all =~= all.take(state.seen.len() as int) + all.skip(state.seen.len() as int));
    assert(PrefetchState::begun(wave).sources.dom() =~= Set::<Seq<char>>::empty());
}

} // verus!
