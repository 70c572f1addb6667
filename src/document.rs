//! The document cache: live reads, or a snapshot frozen before serving begins.

use crate::store::opt_str_view;
use vstd::prelude::*;

verus! {

/// Which of the two documents a request is served.
#[derive(PartialEq, Eq, Structural, Clone, Copy, Debug)]
pub enum DocKind {
    Protected,
    Public,
}

/// How documents are served; chosen once, when the cache is built.
#[derive(PartialEq, Eq, Structural, Clone, Copy, Debug)]
pub enum CacheMode {
    /// Every request reads the backing source afresh.
    ReadThrough,
    /// Content is captured once at startup and never changes afterwards.
    Frozen,
}

/// A response to a page request.
pub struct Page {
    pub status: u16,
    /// HTML when true, plain text otherwise.
    pub html: bool,
    pub body: String,
    /// Whether the response forbids intermediary caching.
    pub no_store: bool,
}

pub struct PageView {
    pub status: u16,
    pub html: bool,
    pub body: Seq<char>,
    pub no_store: bool,
}

impl View for Page {
    type V = PageView;

    open spec fn view(&self) -> PageView {
        PageView { status: self.status, html: self.html, body: self.body@, no_store: self.no_store }
    }
}

pub struct CacheView {
    pub mode: CacheMode,
    pub protected: Seq<char>,
    pub public: Seq<char>,
}

/// The two documents, held as frozen snapshots when the mode is `Frozen`.
pub struct DocumentCache {
    mode: CacheMode,
    protected: String,
    public: String,
}

impl View for DocumentCache {
    type V = CacheView;

    closed spec fn view(&self) -> CacheView {
        CacheView { mode: self.mode, protected: self.protected@, public: self.public@ }
    }
}

pub open spec fn placeholder_spec(kind: DocKind) -> Seq<char> {
    match kind {
        DocKind::Protected => "<!DOCTYPE html><html><body><h1>服务器错误：无法加载简历页面</h1></body></html>"@,
        DocKind::Public => "<!DOCTYPE html><html><body><h1>服务器错误：无法加载登录页面</h1></body></html>"@,
    }
}

pub open spec fn unavailable_spec(kind: DocKind) -> Seq<char> {
    match kind {
        DocKind::Protected => "服务器暂时无法加载简历内容，请稍后重试"@,
        DocKind::Public => "服务器暂时无法加载登录页面，请稍后重试"@,
    }
}

/// The page marked as an error that stands in for a document that could not be loaded at startup.
pub fn placeholder(kind: DocKind) -> (r: String)
    ensures
        r@ == placeholder_spec(kind),
{
    match kind {
        DocKind::Protected => "<!DOCTYPE html><html><body><h1>服务器错误：无法加载简历页面</h1></body></html>".to_owned(),
        DocKind::Public => "<!DOCTYPE html><html><body><h1>服务器错误：无法加载登录页面</h1></body></html>".to_owned(),
    }
}

fn unavailable_message(kind: DocKind) -> (r: String)
    ensures
        r@ == unavailable_spec(kind),
{
    match kind {
        DocKind::Protected => "服务器暂时无法加载简历内容，请稍后重试".to_owned(),
        DocKind::Public => "服务器暂时无法加载登录页面，请稍后重试".to_owned(),
    }
}

/// What a frozen snapshot holds: the loaded content, or the placeholder when loading failed.
pub open spec fn snapshot_spec(loaded: Option<Seq<char>>, kind: DocKind) -> Seq<char> {
    match loaded {
        Some(c) => c,
        None => placeholder_spec(kind),
    }
}

pub open spec fn snapshot_of(c: CacheView, kind: DocKind) -> Seq<char> {
    match kind {
        DocKind::Protected => c.protected,
        DocKind::Public => c.public,
    }
}

/// The response to a request for `kind`, given what a live read of its source gave.
pub open spec fn serve_spec(c: CacheView, kind: DocKind, live: Option<Seq<char>>) -> PageView {
    match c.mode {
        CacheMode::Frozen => PageView {
            status: 200,
            html: true,
            body: snapshot_of(c, kind),
            no_store: true,
        },
        CacheMode::ReadThrough => match live {
            Some(b) => PageView { status: 200, html: true, body: b, no_store: true },
            None => PageView {
                status: 500,
                html: false,
                body: unavailable_spec(kind),
                no_store: true,
            },
        },
    }
}

impl DocumentCache {
    /// Builds the cache. In `Frozen` mode `protected` and `public` are the startup loads
    /// (`None` when a load failed); in `ReadThrough` mode they are not kept.
    pub fn new(mode: CacheMode, protected: Option<String>, public: Option<String>) -> (r: Self)
        ensures
            r@.mode == mode,
            mode == CacheMode::Frozen ==> r@.protected == snapshot_spec(
                opt_str_view(protected),
                DocKind::Protected,
            ) && r@.public == snapshot_spec(opt_str_view(public), DocKind::Public),
    {
        match mode {
            CacheMode::ReadThrough => DocumentCache {
                mode,
                protected: String::new(),
                public: String::new(),
            },
            CacheMode::Frozen => {
                let p = match protected {
                    Some(c) => c,
                    None => placeholder(DocKind::Protected),
                };
                let q = match public {
                    Some(c) => c,
                    None => placeholder(DocKind::Public),
                };
                DocumentCache { mode, protected: p, public: q }
            },
        }
    }

    pub fn mode(&self) -> (r: CacheMode)
        ensures
            r == self@.mode,
    {
        self.mode
    }

    /// Serves `kind`. `live` is a fresh read of its source (`None` when unreadable); it is
    /// consulted only in `ReadThrough` mode.
    pub fn serve(&self, kind: DocKind, live: Option<String>) -> (r: Page)
        ensures
            r@ == serve_spec(self@, kind, opt_str_view(live)),
    {
        match self.mode {
            CacheMode::Frozen => {
                let body = match kind {
                    DocKind::Protected => self.protected.clone(),
                    DocKind::Public => self.public.clone(),
                };
                Page { status: 200, html: true, body, no_store: true }
            },
            CacheMode::ReadThrough => match live {
                Some(b) => Page { status: 200, html: true, body: b, no_store: true },
                None => Page {
                    status: 500,
                    html: false,
                    body: unavailable_message(kind),
                    no_store: true,
                },
            },
        }
    }
}

/// A frozen cache answers the same whatever the backing source now holds, while a
/// read-through cache answers with what the source holds at the time of the request.
pub proof fn lemma_frozen_ignores_source(
    c: CacheView,
    kind: DocKind,
    before: Option<Seq<char>>,
    after: Option<Seq<char>>,
)
    ensures
        c.mode == CacheMode::Frozen ==> serve_spec(c, kind, before) == serve_spec(c, kind, after),
        c.mode == CacheMode::ReadThrough ==> match after {
            Some(b) => serve_spec(c, kind, after).body == b && serve_spec(c, kind, after).status
                == 200,
            None => serve_spec(c, kind, after).status == 500,
        },
{
}

} // verus!
