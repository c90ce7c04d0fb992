//! The category rules and the per-folder settings the engine is configured with.
use vstd::prelude::*;
use crate::default_names::lemma_default_names_distinct;
use crate::i18n::{t, message_text, Language};
use crate::text::text_eq;

verus! {

/// serde_json's `Value`, carried unread in configurations and payment answers.
#[verifier::external_type_specification]
#[verifier::external_body]
pub struct ExJsonValue(serde_json::Value);

/// The counters kept for one watched folder.
#[derive(Debug, Clone)]
pub struct PathStats {
    pub files_organized: u64,
    pub last_organized: Option<String>,
    pub monitoring_since: Option<String>,
}

/// One folder the user manages, with its own settings.
#[derive(Debug, Clone)]
pub struct PathConfig {
    pub id: String,
    pub path: String,
    pub name: String,
    pub is_monitoring: bool,
    pub auto_organize: bool,
    pub stats: PathStats,
    pub custom_categories: Option<Vec<(String, Vec<String>)>>,
    pub exclude_patterns: Option<Vec<String>>,
}

/// The engine's configuration: category rules, in order, and folder settings.
#[derive(Debug, Clone)]
pub struct Config {
    /// Category name and its lowercase, dot-prefixed extensions; names are distinct (see `wf`).
    pub categories: Vec<(String, Vec<String>)>,
    pub version: String,
    pub description: String,
    pub paths: Option<Vec<PathConfig>>,
    pub downloads_folder: Option<String>,
    pub auto_organize: Option<bool>,
    pub notification_enabled: Option<bool>,
    pub rules: Option<Vec<serde_json::Value>>,
}

/// The category that can never be removed.
pub const PROTECTED_CATEGORY: &'static str = "category_others";

/// Position of the first category named `name`, or -1.
pub open spec fn category_index(cats: Seq<(String, Vec<String>)>, name: Seq<char>) -> int {
    if exists|i: int| 0 <= i < cats.len() && #[trigger] cats[i].0@ == name {
        choose|i: int|
            0 <= i < cats.len() && #[trigger] cats[i].0@ == name && forall|j: int| 0 <= j < i ==> cats[j].0@ != name
    } else {
        -1
    }
}

/// The position of the first category named `name`, if any.
pub fn category_position(cats: &Vec<(String, Vec<String>)>, name: &str) -> (r: Option<usize>)
    ensures
        match r {
            Some(i) => i as int == category_index(cats@, name@) && i < cats@.len(),
            None => category_index(cats@, name@) == -1,
        },
{
    let mut i: usize = 0;
    while i < cats.len()
        invariant
            i <= cats@.len(),
            forall|j: int| 0 <= j < i ==> cats@[j].0@ != name@,
        decreases cats@.len() - i,
    {
        if text_eq(cats[i].0.as_str(), name) {
            proof {
                let c = choose|c: int|
                    0 <= c < cats@.len() && #[trigger] cats@[c].0@ == name@ && forall|j: int| 0 <= j < c ==> cats@[j].0@ != name@;
                assert(exists|c: int|
                    0 <= c < cats@.len() && #[trigger] cats@[c].0@ == name@ && forall|j: int| 0 <= j < c ==> cats@[j].0@ != name@) by {
                    assert(cats@[i as int].0@ == name@);
                }
                if c < i {
                    assert(cats@[c].0@ != name@);
                } else if c > i {
                    assert(cats@[i as int].0@ != name@);
                }
            }
            return Some(i);
        }
        i = i + 1;
    }
    None
}

/// Category names and extension lists as text.
pub open spec fn rules_view(cats: Seq<(String, Vec<String>)>) -> Seq<(Seq<char>, Seq<Seq<char>>)> {
    cats.map_values(|c: (String, Vec<String>)| (c.0@, c.1@.map_values(|e: String| e@)))
}

/// The category rules of a fresh configuration, with names in `lang`, in order.
pub open spec fn default_rules(lang: Language) -> Seq<(Seq<char>, Seq<Seq<char>>)> {
    seq![
        (message_text(lang, "category_images"@), seq![".jpg"@, ".jpeg"@, ".png"@, ".gif"@, ".bmp"@, ".svg"@, ".webp"@, ".tiff"@, ".ico"@]),
        (message_text(lang, "category_documents"@), seq![".pdf"@, ".doc"@, ".docx"@, ".txt"@, ".rtf"@, ".pages"@, ".odt"@, ".epub"@]),
        (message_text(lang, "category_spreadsheets"@), seq![".xls"@, ".xlsx"@, ".csv"@, ".numbers"@, ".ods"@]),
        (message_text(lang, "category_presentations"@), seq![".ppt"@, ".pptx"@, ".key"@, ".odp"@]),
        (message_text(lang, "category_audio"@), seq![".mp3"@, ".wav"@, ".aac"@, ".flac"@, ".m4a"@, ".ogg"@, ".wma"@]),
        (message_text(lang, "category_video"@), seq![".mp4"@, ".avi"@, ".mov"@, ".mkv"@, ".wmv"@, ".flv"@, ".webm"@, ".m4v"@]),
        (message_text(lang, "category_archives"@), seq![".zip"@, ".rar"@, ".7z"@, ".tar"@, ".gz"@, ".bz2"@, ".xz"@]),
        (message_text(lang, "category_programs"@), seq![".dmg"@, ".pkg"@, ".app"@, ".exe"@, ".deb"@, ".rpm"@]),
        (message_text(lang, "category_code"@), seq![".py"@, ".js"@, ".html"@, ".css"@, ".java"@, ".cpp"@, ".c"@, ".php"@, ".rb"@, ".go"@, ".rs"@]),
        (message_text(lang, "category_fonts"@), seq![".ttf"@, ".otf"@, ".woff"@, ".woff2"@]),
        (message_text(lang, "category_others"@), seq![]),
    ]
}

/// No two category rules share a name.
pub open spec fn names_distinct(cats: Seq<(String, Vec<String>)>) -> bool {
    forall|i: int, j: int| 0 <= i < cats.len() && 0 <= j < cats.len() && i != j ==> #[trigger] cats[i].0@ != #[trigger] cats[j].0@
}

/// No two rules, given as text, share a name.
pub open spec fn rules_names_distinct(rules: Seq<(Seq<char>, Seq<Seq<char>>)>) -> bool {
    forall|i: int, j: int| 0 <= i < rules.len() && 0 <= j < rules.len() && i != j ==> #[trigger] rules[i].0 != #[trigger] rules[j].0
}

proof fn lemma_names_distinct_from_view(cats: Seq<(String, Vec<String>)>)
    requires
        rules_names_distinct(rules_view(cats)),
    ensures
        names_distinct(cats),
{
    let r = rules_view(cats);
    assert forall|i: int, j: int| 0 <= i < cats.len() && 0 <= j < cats.len() && i != j
        implies #[trigger] cats[i].0@ != #[trigger] cats[j].0@ by {
        assert(r[i].0 == cats[i].0@);
        assert(r[j].0 == cats[j].0@);
    }
}

proof fn lemma_names_distinct_update(cats: Seq<(String, Vec<String>)>, i: int, c: (String, Vec<String>))
    requires
        names_distinct(cats),
        0 <= i < cats.len(),
        c.0@ == cats[i].0@,
    ensures
        names_distinct(cats.update(i, c)),
{
    let n = cats.update(i, c);
    assert forall|a: int, b: int| 0 <= a < n.len() && 0 <= b < n.len() && a != b
        implies #[trigger] n[a].0@ != #[trigger] n[b].0@ by {
        assert(n[a].0@ == cats[a].0@);
        assert(n[b].0@ == cats[b].0@);
    }
}

proof fn lemma_names_distinct_push(cats: Seq<(String, Vec<String>)>, c: (String, Vec<String>))
    requires
        names_distinct(cats),
        category_index(cats, c.0@) == -1,
    ensures
        names_distinct(cats.push(c)),
{
    let n = cats.push(c);
    assert forall|a: int, b: int| 0 <= a < n.len() && 0 <= b < n.len() && a != b
        implies #[trigger] n[a].0@ != #[trigger] n[b].0@ by {
        if a < cats.len() && b < cats.len() {
            assert(cats[a].0@ != cats[b].0@);
        } else if a < cats.len() {
            assert(n[a] == cats[a]);
            if cats[a].0@ == c.0@ {
                assert(exists|k: int| 0 <= k < cats.len() && #[trigger] cats[k].0@ == c.0@);
            }
        } else {
            assert(n[b] == cats[b]);
            if cats[b].0@ == c.0@ {
                assert(exists|k: int| 0 <= k < cats.len() && #[trigger] cats[k].0@ == c.0@);
            }
        }
    }
}

proof fn lemma_names_distinct_remove(cats: Seq<(String, Vec<String>)>, i: int)
    requires
        names_distinct(cats),
        0 <= i < cats.len(),
    ensures
        names_distinct(cats.remove(i)),
{
    let n = cats.remove(i);
    assert forall|a: int, b: int| 0 <= a < n.len() && 0 <= b < n.len() && a != b
        implies #[trigger] n[a].0@ != #[trigger] n[b].0@ by {
        let a2 = if a < i { a } else { a + 1 };
        let b2 = if b < i { b } else { b + 1 };
        assert(n[a] == cats[a2]);
        assert(n[b] == cats[b2]);
    }
}

impl Config {
    /// Category names are distinct, as the keys of a map would be.
    pub open spec fn wf(&self) -> bool {
        names_distinct(self.categories@)
    }

    /// A fresh configuration: the built-in categories named in `lang`, version `1.0`,
    /// the catalog's description, and no folders yet.
    pub fn localized_default(lang: Language) -> (r: Config)
        ensures
            r.wf(),
            rules_view(r.categories@) == default_rules(lang),
            r.version@ == "1.0"@,
            r.description@ == message_text(lang, "config_file_description"@),
            r.paths is Some && r.paths->0@.len() == 0,
            r.downloads_folder is None,
            r.auto_organize is None,
            r.notification_enabled is None,
            r.rules is None,
    {
        let mut categories: Vec<(String, Vec<String>)> = Vec::new();
        let mut images: Vec<String> = Vec::new();
        images.push(String::from_str(".jpg"));
        images.push(String::from_str(".jpeg"));
        images.push(String::from_str(".png"));
        images.push(String::from_str(".gif"));
        images.push(String::from_str(".bmp"));
        images.push(String::from_str(".svg"));
        images.push(String::from_str(".webp"));
        images.push(String::from_str(".tiff"));
        images.push(String::from_str(".ico"));
        assert(images@.map_values(|e: String| e@) =~= seq![".jpg"@, ".jpeg"@, ".png"@, ".gif"@, ".bmp"@, ".svg"@, ".webp"@, ".tiff"@, ".ico"@]);
        categories.push((t(lang, "category_images"), images));
        let mut documents: Vec<String> = Vec::new();
        documents.push(String::from_str(".pdf"));
        documents.push(String::from_str(".doc"));
        documents.push(String::from_str(".docx"));
        documents.push(String::from_str(".txt"));
        documents.push(String::from_str(".rtf"));
        documents.push(String::from_str(".pages"));
        documents.push(String::from_str(".odt"));
        documents.push(String::from_str(".epub"));
        assert(documents@.map_values(|e: String| e@) =~= seq![".pdf"@, ".doc"@, ".docx"@, ".txt"@, ".rtf"@, ".pages"@, ".odt"@, ".epub"@]);
        categories.push((t(lang, "category_documents"), documents));
        let mut spreadsheets: Vec<String> = Vec::new();
        spreadsheets.push(String::from_str(".xls"));
        spreadsheets.push(String::from_str(".xlsx"));
        spreadsheets.push(String::from_str(".csv"));
        spreadsheets.push(String::from_str(".numbers"));
        spreadsheets.push(String::from_str(".ods"));
        assert(spreadsheets@.map_values(|e: String| e@) =~= seq![".xls"@, ".xlsx"@, ".csv"@, ".numbers"@, ".ods"@]);
        categories.push((t(lang, "category_spreadsheets"), spreadsheets));
        let mut presentations: Vec<String> = Vec::new();
        presentations.push(String::from_str(".ppt"));
        presentations.push(String::from_str(".pptx"));
        presentations.push(String::from_str(".key"));
        presentations.push(String::from_str(".odp"));
        assert(presentations@.map_values(|e: String| e@) =~= seq![".ppt"@, ".pptx"@, ".key"@, ".odp"@]);
        categories.push((t(lang, "category_presentations"), presentations));
        let mut audio: Vec<String> = Vec::new();
        audio.push(String::from_str(".mp3"));
        audio.push(String::from_str(".wav"));
        audio.push(String::from_str(".aac"));
        audio.push(String::from_str(".flac"));
        audio.push(String::from_str(".m4a"));
        audio.push(String::from_str(".ogg"));
        audio.push(String::from_str(".wma"));
        assert(audio@.map_values(|e: String| e@) =~= seq![".mp3"@, ".wav"@, ".aac"@, ".flac"@, ".m4a"@, ".ogg"@, ".wma"@]);
        categories.push((t(lang, "category_audio"), audio));
        let mut video: Vec<String> = Vec::new();
        video.push(String::from_str(".mp4"));
        video.push(String::from_str(".avi"));
        video.push(String::from_str(".mov"));
        video.push(String::from_str(".mkv"));
        video.push(String::from_str(".wmv"));
        video.push(String::from_str(".flv"));
        video.push(String::from_str(".webm"));
        video.push(String::from_str(".m4v"));
        assert(video@.map_values(|e: String| e@) =~= seq![".mp4"@, ".avi"@, ".mov"@, ".mkv"@, ".wmv"@, ".flv"@, ".webm"@, ".m4v"@]);
        categories.push((t(lang, "category_video"), video));
        let mut archives: Vec<String> = Vec::new();
        archives.push(String::from_str(".zip"));
        archives.push(String::from_str(".rar"));
        archives.push(String::from_str(".7z"));
        archives.push(String::from_str(".tar"));
        archives.push(String::from_str(".gz"));
        archives.push(String::from_str(".bz2"));
        archives.push(String::from_str(".xz"));
        assert(archives@.map_values(|e: String| e@) =~= seq![".zip"@, ".rar"@, ".7z"@, ".tar"@, ".gz"@, ".bz2"@, ".xz"@]);
        categories.push((t(lang, "category_archives"), archives));
        let mut programs: Vec<String> = Vec::new();
        programs.push(String::from_str(".dmg"));
        programs.push(String::from_str(".pkg"));
        programs.push(String::from_str(".app"));
        programs.push(String::from_str(".exe"));
        programs.push(String::from_str(".deb"));
        programs.push(String::from_str(".rpm"));
        assert(programs@.map_values(|e: String| e@) =~= seq![".dmg"@, ".pkg"@, ".app"@, ".exe"@, ".deb"@, ".rpm"@]);
        categories.push((t(lang, "category_programs"), programs));
        let mut code: Vec<String> = Vec::new();
        code.push(String::from_str(".py"));
        code.push(String::from_str(".js"));
        code.push(String::from_str(".html"));
        code.push(String::from_str(".css"));
        code.push(String::from_str(".java"));
        code.push(String::from_str(".cpp"));
        code.push(String::from_str(".c"));
        code.push(String::from_str(".php"));
        code.push(String::from_str(".rb"));
        code.push(String::from_str(".go"));
        code.push(String::from_str(".rs"));
        assert(code@.map_values(|e: String| e@) =~= seq![".py"@, ".js"@, ".html"@, ".css"@, ".java"@, ".cpp"@, ".c"@, ".php"@, ".rb"@, ".go"@, ".rs"@]);
        categories.push((t(lang, "category_code"), code));
        let mut fonts: Vec<String> = Vec::new();
        fonts.push(String::from_str(".ttf"));
        fonts.push(String::from_str(".otf"));
        fonts.push(String::from_str(".woff"));
        fonts.push(String::from_str(".woff2"));
        assert(fonts@.map_values(|e: String| e@) =~= seq![".ttf"@, ".otf"@, ".woff"@, ".woff2"@]);
        categories.push((t(lang, "category_fonts"), fonts));
        let mut others: Vec<String> = Vec::new();
        assert(others@.map_values(|e: String| e@) =~= seq![]);
        categories.push((t(lang, "category_others"), others));
        assert(rules_view(categories@) =~= default_rules(lang));
        proof {
            lemma_default_names_distinct(lang);
            lemma_names_distinct_from_view(categories@);
        }
        Config {
            categories,
            version: String::from_str("1.0"),
            description: t(lang, "config_file_description"),
            paths: Some(Vec::new()),
            downloads_folder: None,
            auto_organize: None,
            notification_enabled: None,
            rules: None,
        }
    }

    /// Sets the extensions of category `name`, adding it at the end when it is new.
    pub fn add_category(&mut self, name: String, extensions: Vec<String>)
        requires
            old(self).wf(),
        ensures
            final(self).wf(),
            ({
                let i = category_index(old(self).categories@, name@);
                &&& i >= 0 ==> final(self).categories@ == old(self).categories@.update(i, (name, extensions))
                &&& i < 0 ==> final(self).categories@ == old(self).categories@.push((name, extensions))
            }),
            final(self).version == old(self).version,
            final(self).paths == old(self).paths,
    {
        match category_position(&self.categories, name.as_str()) {
            Some(i) => {
                proof {
                    lemma_names_distinct_update(self.categories@, i as int, (name, extensions));
                }
                self.categories.set(i, (name, extensions));
            },
            None => {
                proof {
                    lemma_names_distinct_push(self.categories@, (name, extensions));
                }
                self.categories.push((name, extensions));
            },
        }
    }

    /// Removes category `name`; the protected category stays. Returns whether one was removed.
    pub fn remove_category(&mut self, name: &str) -> (r: bool)
        requires
            old(self).wf(),
        ensures
            final(self).wf(),
            ({
                let i = category_index(old(self).categories@, name@);
                &&& r == (name@ != PROTECTED_CATEGORY@ && i >= 0)
                &&& r ==> final(self).categories@ == old(self).categories@.remove(i)
                &&& !r ==> final(self).categories@ == old(self).categories@
            }),
            final(self).version == old(self).version,
            final(self).paths == old(self).paths,
    {
        if text_eq(name, PROTECTED_CATEGORY) {
            return false;
        }
        match category_position(&self.categories, name) {
            Some(i) => {
                proof {
                    lemma_names_distinct_remove(self.categories@, i as int);
                }
                let _removed = self.categories.remove(i);
                true
            },
            None => false,
        }
    }

    /// Replaces the extensions of an existing category `name`; returns whether it existed.
    pub fn update_category(&mut self, name: String, extensions: Vec<String>) -> (r: bool)
        requires
            old(self).wf(),
        ensures
            final(self).wf(),
            ({
                let i = category_index(old(self).categories@, name@);
                &&& r == (i >= 0)
                &&& r ==> final(self).categories@ == old(self).categories@.update(i, (name, extensions))
                &&& !r ==> final(self).categories@ == old(self).categories@
            }),
            final(self).version == old(self).version,
            final(self).paths == old(self).paths,
    {
        match category_position(&self.categories, name.as_str()) {
            Some(i) => {
                proof {
                    lemma_names_distinct_update(self.categories@, i as int, (name, extensions));
                }
                self.categories.set(i, (name, extensions));
                true
            },
            None => false,
        }
    }
}

} // verus!
