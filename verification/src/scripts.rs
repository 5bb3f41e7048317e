//! The larger scripts and style sheets of the directory and Markdown pages.
use vstd::prelude::*;

verus! {

broadcast use vstd::string::group_string_axioms;

pub const DIRECTORY_CSS_1: &'static str = r#"
:root { color-scheme:light dark; --paper:#f7f8fc; --surface:#fff; --ink:#202333; --muted:#73788b; --line:#dfe3ee; --accent:#5b5bd6; --accent-soft:#eeeeff; --folder:#6970e8; --grid:#e4e7f0; }
* { box-sizing:border-box; }
[hidden] { display:none !important; }
html { font-size:16px; scrollbar-color:var(--muted) var(--paper); }
body { min-height:100vh; margin:0; color:var(--ink); background:var(--paper); font-family:Inter,ui-sans-serif,-apple-system,BlinkMacSystemFont,"Segoe UI","Noto Sans SC","PingFang SC",sans-serif; }
::selection { color:var(--surface); background:var(--accent); }
body.lightbox-open { overflow:hidden; }
.scroll-jumps { position:fixed; z-index:15; top:50%; right:max(.65rem,env(safe-area-inset-right)); display:grid; overflow:hidden; border-radius:.75rem; background:color-mix(in srgb,var(--surface) 88%,transparent); box-shadow:0 10px 30px rgba(27,31,52,.18); backdrop-filter:blur(14px); transform:translateY(-50%); }
.scroll-jumps button { display:grid; place-items:center; width:2.65rem; height:2.65rem; padding:0; border:0; color:var(--muted); background:transparent; cursor:pointer; }
.scroll-jumps button+button { border-top:1px solid var(--line); }
.scroll-jumps button:hover:not(:disabled) { color:var(--accent); background:var(--accent-soft); }
.scroll-jumps button:disabled { opacity:.28; cursor:default; }
.scroll-jumps svg { width:1.15rem; height:1.15rem; fill:none; stroke:currentColor; stroke-width:1.8; stroke-linecap:round; stroke-linejoin:round; }
main { width:min(100% - 2rem,980px); margin:0 auto; padding:clamp(1.5rem,6vw,5rem) 0; }
.gallery-mode main { width:min(100% - 2rem,1320px); }
.breadcrumbs { display:flex; align-items:center; gap:.55rem; overflow-x:auto; padding-bottom:1rem; color:var(--muted); font:600 .78rem/1.4 ui-monospace,SFMono-Regular,Consolas,monospace; scrollbar-width:none; }
.breadcrumbs a { color:inherit; text-decoration:none; white-space:nowrap; }
.breadcrumbs a:hover { color:var(--accent); }
.directory-favourites { display:flex; align-items:center; gap:.45rem; margin:-.35rem 0 1rem; padding:.45rem 0; color:var(--muted); }
.directory-favourites-label { flex:0 0 auto; padding-right:.15rem; font:700 .68rem/1 ui-monospace,SFMono-Regular,Consolas,monospace; letter-spacing:.08em; }
.directory-favourites-list { display:flex; flex:1 1 auto; gap:.45rem; min-width:0; overflow:hidden; }
.directory-favourites-more { position:relative; flex:0 0 auto; }
.directory-favourites-more summary { display:flex; align-items:center; gap:.18rem; min-height:1.8rem; padding:.38rem .48rem .38rem .62rem; border:1px solid var(--line); border-radius:.5rem; color:var(--muted); background:var(--surface); font:700 .7rem/1 ui-sans-serif,-apple-system,BlinkMacSystemFont,"Segoe UI","Noto Sans SC",sans-serif; cursor:pointer; list-style:none; transition:border-color .16s ease,color .16s ease,background-color .16s ease; }
.directory-favourites-more summary::-webkit-details-marker { display:none; }
.directory-favourites-more summary:hover,.directory-favourites-more[open] summary { border-color:var(--accent); color:var(--accent); background:var(--accent-soft); }
.directory-favourites-more summary:focus-visible { outline:2px solid var(--accent); outline-offset:2px; }
.directory-favourites-more summary svg { width:.9rem; height:.9rem; fill:none; stroke:currentColor; stroke-width:1.7; stroke-linecap:round; stroke-linejoin:round; transition:transform .18s ease; }
.directory-favourites-more[open] summary svg { transform:rotate(180deg); }
"#;

pub const DIRECTORY_CSS_2: &'static str = r#".directory-favourites-menu { position:absolute; z-index:4; top:calc(100% + .45rem); right:0; display:grid; gap:.35rem; width:min(24rem,calc(100vw - 2rem)); max-height:min(60vh,28rem); overflow:auto; padding:.45rem; border:1px solid var(--line); border-radius:.65rem; background:var(--surface); box-shadow:0 12px 28px rgba(27,31,52,.16); }
.directory-favourites-menu .directory-favourite { width:100%; }
.directory-favourites-menu .directory-favourite a { max-width:none; flex:1 1 auto; }
.directory-favourite { flex:0 0 auto; display:flex; overflow:hidden; border:1px solid var(--line); border-radius:.5rem; background:var(--surface); transition:opacity .12s ease,transform .12s ease; }
.directory-favourite.dragging { opacity:.5; transform:scale(.98); }
.directory-favourite a { display:flex; align-items:center; max-width:min(15rem,55vw); min-width:0; overflow:hidden; padding:.42rem .25rem .42rem .6rem; color:var(--ink); font:600 .72rem/1 ui-monospace,SFMono-Regular,Consolas,monospace; text-decoration:none; white-space:nowrap; }
.directory-favourite a.editing { min-width:8rem; padding:.18rem .25rem; -webkit-user-drag:none; }
.directory-favourite-name-input { width:100%; min-width:0; padding:.22rem .35rem; border:1px solid var(--accent); border-radius:.28rem; color:var(--ink); background:var(--paper); font:inherit; outline:0; user-select:text; -webkit-user-drag:none; }
.directory-favourite-prefix { min-width:0; overflow:hidden; text-overflow:ellipsis; white-space:nowrap; }
.directory-favourite-separator,.directory-favourite-leaf { flex:0 0 auto; }
.directory-favourite a:hover,.directory-favourite a[aria-current="page"] { color:var(--accent); background:var(--accent-soft); }
.directory-favourite button { width:1.8rem; padding:0; border:0; border-left:1px solid var(--line); color:var(--muted); background:transparent; font-size:1rem; cursor:pointer; }
.directory-favourite button:hover { color:var(--accent); background:var(--accent-soft); }
.directory-favourite .directory-favourite-drag { border-right:1px solid var(--line); border-left:0; font-size:.82rem; cursor:grab; touch-action:none; user-select:none; }
.directory-favourite .directory-favourite-drag:active { cursor:grabbing; }
main>header { position:relative; padding:clamp(1.4rem,4vw,2.5rem); overflow:hidden; border:1px solid var(--line); border-radius:1.1rem 1.1rem 0 0; background:var(--surface); }
main>header::after { position:absolute; right:-1.4rem; bottom:-3.2rem; width:9rem; height:7rem; border:1.1rem solid var(--accent-soft); border-radius:1.2rem; content:""; transform:rotate(-8deg); }
.view-toggle { position:absolute; z-index:2; right:clamp(1rem,3vw,2rem); top:clamp(1rem,3vw,2rem); display:flex; align-items:center; gap:.45rem; min-height:2.35rem; padding:.55rem .8rem; border:1px solid var(--line); border-radius:.65rem; color:var(--ink); background:var(--surface); box-shadow:0 6px 18px rgba(54,59,92,.08); font:700 .75rem/1 ui-sans-serif,-apple-system,sans-serif; cursor:pointer; }
.view-toggle:hover,.view-toggle[aria-pressed="true"] { border-color:var(--accent); color:var(--accent); background:var(--accent-soft); }
.view-toggle span { font-size:1rem; }
.eyebrow { margin:0 0 .7rem; color:var(--accent); font:700 .72rem/1 ui-monospace,SFMono-Regular,Consolas,monospace; letter-spacing:.14em; }
"#;

pub const DIRECTORY_CSS_3: &'static str = r#"h1 { position:relative; z-index:1; margin:0; overflow-wrap:anywhere; font-family:"Iowan Old Style","Noto Serif SC","Songti SC",Georgia,serif; font-size:clamp(2rem,6vw,3.8rem); line-height:1.08; letter-spacing:-.035em; }
.summary { position:relative; z-index:1; margin:.8rem 0 0; color:var(--muted); font-size:.88rem; }
.directory-favourite-toggle { position:relative; z-index:2; min-height:2rem; margin-top:.85rem; padding:.38rem .65rem; border:1px solid var(--line); border-radius:.45rem; color:var(--muted); background:var(--surface); font:600 .72rem/1 ui-sans-serif,-apple-system,sans-serif; cursor:pointer; }
.directory-favourite-toggle:hover,.directory-favourite-toggle[aria-pressed="true"] { border-color:var(--accent); color:var(--accent); background:var(--accent-soft); }
.directory-favourite-toggle:disabled { opacity:.5; cursor:wait; }
.directory-browser-tools { position:relative; z-index:1; display:grid; grid-template-columns:minmax(0,1fr) auto; align-items:stretch; gap:.55rem; margin-top:1.25rem; }
.directory-search { display:block; width:100%; min-width:0; padding:.75rem .9rem; border:1px solid var(--line); border-radius:.65rem; color:var(--ink); background:var(--paper); font:inherit; }
.directory-search::placeholder { color:var(--muted); }
.directory-sort { display:flex; align-items:center; gap:.45rem; padding:.35rem .4rem .35rem .7rem; border:1px solid var(--line); border-radius:.65rem; color:var(--muted); background:var(--paper); font:650 .72rem/1 ui-sans-serif,-apple-system,BlinkMacSystemFont,"Segoe UI","Noto Sans SC",sans-serif; white-space:nowrap; }
.directory-sort:focus-within { border-color:var(--accent); box-shadow:0 0 0 2px color-mix(in srgb,var(--accent) 18%,transparent); }
.directory-sort select { min-height:2rem; padding:0 1.7rem 0 .55rem; border:0; border-left:1px solid var(--line); color:var(--ink); background:transparent; font:inherit; cursor:pointer; outline:0; }
.gallery-organise { position:relative; z-index:1; display:flex; flex-wrap:wrap; align-items:center; justify-content:flex-end; gap:.4rem; margin-top:.75rem; }
.organise-label { margin-right:.25rem; color:var(--muted); font-size:.72rem; }
.gallery-organise button { display:inline-flex; align-items:center; gap:.4rem; min-height:2rem; padding:.35rem .6rem; border:1px solid var(--line); border-radius:.45rem; color:var(--muted); background:var(--surface); font:500 .72rem/1.3 ui-sans-serif,-apple-system,sans-serif; cursor:pointer; transition:color .15s ease,border-color .15s ease,background .15s ease; }
.gallery-organise button:hover { border-color:var(--accent); color:var(--ink); background:var(--accent-soft); }
.gallery-organise button:disabled { opacity:.5; cursor:wait; }
.gallery-organise button[aria-pressed="true"] { border-color:var(--accent); color:var(--accent); background:var(--accent-soft); }
.gallery-organise .delete-marked-images:not(:disabled) { border-color:color-mix(in srgb,#b42336 55%,var(--line)); color:light-dark(#a51d31,#ff9ba9); }
.gallery-organise #deletion-count { display:grid; place-items:center; min-width:1.2rem; height:1.2rem; padding:0 .25rem; border-radius:.6rem; color:var(--surface); background:var(--muted); font-size:.65rem; }
.organise-heart { color:light-dark(#bb5268,#dc899b); }
.organise-arrow { opacity:.6; }
.directory-notice { position:relative; z-index:1; margin:.75rem 0 0; color:var(--muted); font-size:.78rem; line-height:1.6; overflow-wrap:anywhere; }
"#;

pub const DIRECTORY_CSS_4: &'static str = r#".listing { overflow:hidden; border:1px solid var(--line); border-top:0; border-radius:0 0 1.1rem 1.1rem; background:var(--surface); box-shadow:0 25px 70px rgba(54,59,92,.09); }
.entry { display:grid; grid-template-columns:2.55rem minmax(0,1fr) 5rem 6rem 1.5rem; align-items:center; gap:.85rem; min-height:4.25rem; padding:.7rem 1.2rem; border-top:1px solid var(--line); color:var(--ink); text-decoration:none; transition:background .15s ease,transform .18s cubic-bezier(.16,1,.3,1); }
.entry:first-child { border-top:0; }
.entry:hover { background:var(--accent-soft); transform:translateX(.2rem); }
.folder-open { display:contents; color:inherit; text-decoration:none; }
.folder:focus-within { background:var(--accent-soft); }
.folder .arrow { display:none; }
.folder-favourite-toggle { position:absolute; right:1.15rem; display:grid; place-items:center; width:1.8rem; height:1.8rem; padding:0; border:0; border-radius:.45rem; color:var(--muted); background:transparent; font-size:1.25rem; line-height:1; cursor:pointer; }
.folder-favourite-toggle:hover,.folder-favourite-toggle[aria-pressed="true"] { color:var(--accent); background:var(--accent-soft); }
.folder-favourite-toggle:disabled { opacity:.5; cursor:wait; }
.entry-name { overflow:hidden; font-weight:650; text-overflow:ellipsis; white-space:nowrap; }
.kind { justify-self:start; padding:.2rem .45rem; border:1px solid var(--line); border-radius:.3rem; color:var(--muted); font:700 .62rem/1 ui-monospace,SFMono-Regular,Consolas,monospace; letter-spacing:.04em; }
.detail { justify-self:end; color:var(--muted); font:500 .75rem/1 ui-monospace,SFMono-Regular,Consolas,monospace; }
.arrow { color:var(--muted); font-size:1.1rem; opacity:0; transform:translateX(-.35rem); transition:opacity .15s ease,transform .15s ease; }
.entry:hover .arrow { opacity:1; transform:none; }
.glyph { position:relative; justify-self:center; display:block; width:1.4rem; height:1.2rem; border:2px solid var(--muted); border-radius:.18rem; opacity:.75; }
.folder { position:relative; }
.folder .glyph { height:1rem; margin-top:.2rem; border:0; border-radius:.18rem; background:var(--folder); opacity:1; }
.folder .glyph::before { position:absolute; left:.08rem; top:-.28rem; width:.62rem; height:.38rem; border-radius:.18rem .18rem 0 0; background:var(--folder); content:""; }
.file .glyph::after { position:absolute; right:-2px; top:-2px; width:.42rem; height:.42rem; border-left:2px solid var(--muted); border-bottom:2px solid var(--muted); background:var(--surface); content:""; }
.video .glyph { width:2.2rem; height:1.65rem; border:0; color:var(--muted); opacity:1; }
.video .glyph::after { content:none; }
.video .glyph svg { display:block; width:100%; height:100%; overflow:visible; fill:none; stroke:currentColor; stroke-width:1.5; }
.video .glyph path { fill:var(--accent); stroke:none; }
.entry.video:hover .glyph { color:var(--accent); }
.entry.image .glyph { width:2.55rem; height:2.55rem; overflow:hidden; border:1px solid var(--line); border-radius:.55rem; background-color:var(--surface); background-image:linear-gradient(45deg,var(--grid) 25%,transparent 25%),linear-gradient(-45deg,var(--grid) 25%,transparent 25%),linear-gradient(45deg,transparent 75%,var(--grid) 75%),linear-gradient(-45deg,transparent 75%,var(--grid) 75%); background-position:0 0,0 5px,5px -5px,-5px 0; background-size:10px 10px; box-shadow:inset 0 0 0 1px color-mix(in srgb,var(--line) 65%,transparent); opacity:1; }
.entry.image .glyph::after { content:none; }
"#;

pub const DIRECTORY_CSS_5: &'static str = r#".favourite-mark { position:absolute; right:.1rem; bottom:.1rem; display:block; width:1rem; height:1rem; color:#ff4f78; filter:drop-shadow(0 2px 4px rgba(0,0,0,.55)); pointer-events:none; }
.favourite-mark svg { display:block; width:100%; height:100%; overflow:visible; }
.favourite-mark path { fill:currentColor; stroke:rgba(255,255,255,.9); stroke-width:.75; stroke-linejoin:round; }
.gallery .favourite-mark { right:.45rem; bottom:.45rem; width:1.35rem; height:1.35rem; }
.deletion-mark { position:absolute; left:.15rem; top:.15rem; padding:.15rem .3rem; border-radius:.3rem; color:#fff; background:#b42336; box-shadow:0 2px 7px rgba(0,0,0,.25); font:700 .52rem/1.2 ui-sans-serif,-apple-system,sans-serif; white-space:nowrap; pointer-events:none; }
.gallery .deletion-mark { left:.4rem; top:.4rem; padding:.25rem .4rem; font-size:.65rem; }
.entry.image .glyph img { width:100%; height:100%; object-fit:cover; object-position:center; display:block; pointer-events:none; transition:transform .2s ease; }
.entry.image .glyph img:not([src]) { visibility:hidden; }
.entry.image .glyph.thumbnail-error::before { position:absolute; inset:0; display:grid; place-items:center; padding:.5rem; color:var(--muted); content:"预览不可用"; font:600 .62rem/1.35 ui-sans-serif,-apple-system,sans-serif; text-align:center; }
.entry.image:hover .glyph img { transform:scale(1.06); }
.entry.image.vector .glyph img { object-fit:contain; padding:.2rem; }
.gallery-other-heading { display:none; }
.listing.gallery { display:grid; grid-template-columns:repeat(auto-fill,minmax(168px,1fr)); gap:.42rem; padding:.42rem; overflow:visible; background:color-mix(in srgb,var(--surface) 88%,#0b0c12); }
.gallery .entry { grid-template-columns:minmax(0,1fr) auto; grid-template-rows:11rem auto auto; gap:.65rem .75rem; min-width:0; min-height:0; padding:.75rem; overflow:hidden; border:1px solid var(--line); border-radius:.8rem; background:var(--surface); transition:border-color .18s ease,box-shadow .18s ease,transform .18s ease; }
.gallery .entry:first-child { border-top:1px solid var(--line); }
.gallery .entry:hover { padding:.75rem; border-color:color-mix(in srgb,var(--accent) 45%,var(--line)); background:var(--surface); box-shadow:0 14px 30px rgba(54,59,92,.14); transform:translateY(-3px); }
.gallery .glyph { grid-column:1/-1; grid-row:1; align-self:center; }
.gallery .entry.image .glyph { width:100%; height:100%; border-radius:.55rem; }
.gallery .entry-name { grid-column:1/-1; grid-row:2; width:100%; }
.gallery .kind { grid-column:1; grid-row:3; }
.gallery .detail { grid-column:2; grid-row:3; }
.gallery .arrow { display:none; }
.gallery .folder .glyph,.gallery .file:not(.image) .glyph { transform:scale(1.35); }
.gallery .entry.image .glyph { cursor:zoom-in; }
.listing.gallery .entry.folder { order:-1; }
.listing.gallery .entry.image { position:relative; order:0; display:block; min-height:0; aspect-ratio:1; padding:0; overflow:hidden; border:0; border-radius:.7rem; background:#11131a; box-shadow:none; content-visibility:auto; contain-intrinsic-size:180px 180px; transform:none; }
.listing.gallery .entry.image:hover { padding:0; transform:translateY(-2px); }
.listing.gallery .entry.image::after { position:absolute; z-index:1; inset:auto 0 0; height:42%; background:linear-gradient(transparent,rgba(4,5,9,.78)); content:""; opacity:0; transition:opacity .18s ease; pointer-events:none; }
"#;

pub const DIRECTORY_CSS_6: &'static str = r#".listing.gallery .entry.image .glyph { position:absolute; inset:0; width:100%; height:100%; border:0; border-radius:inherit; }
.listing.gallery .entry.image .entry-name,.listing.gallery .entry.image .detail { position:absolute; z-index:2; right:.65rem; left:.65rem; color:#fff; opacity:0; transform:translateY(.3rem); transition:opacity .18s ease,transform .18s cubic-bezier(.16,1,.3,1); }
.listing.gallery .entry.image .entry-name { bottom:1.55rem; }
.listing.gallery .entry.image .detail { bottom:.55rem; justify-self:auto; font-size:.68rem; }
.listing.gallery .entry.image:hover::after,.listing.gallery .entry.image:focus-visible::after,.listing.gallery .entry.image:hover .entry-name,.listing.gallery .entry.image:focus-visible .entry-name,.listing.gallery .entry.image:hover .detail,.listing.gallery .entry.image:focus-visible .detail { opacity:1; transform:none; }
.listing.gallery .entry.file:not(.image) { order:2; }
.listing.gallery .gallery-other-heading { display:block; grid-column:1/-1; order:1; margin:1.6rem .55rem .35rem; color:var(--muted); font-size:.78rem; font-weight:700; letter-spacing:.04em; }
.listing.gallery .empty { order:3; }
.delete-dialog { width:min(calc(100% - 2rem),26rem); padding:1.5rem; border:0; border-radius:1rem; color:var(--ink); background:var(--surface); box-shadow:0 24px 80px rgba(0,0,0,.35); }
.delete-dialog::backdrop { background:rgba(10,12,20,.6); }
.delete-dialog h2 { margin:0 0 1rem; font-size:1.3rem; }
.delete-dialog p { margin:.75rem 0; line-height:1.6; }
.delete-name { font-weight:650; overflow-wrap:anywhere; }
.delete-dialog #delete-description { font-size:.875rem; }
.delete-error { color:light-dark(#b42336,#ff9ba9); font-size:.875rem; }
.delete-actions { display:flex; justify-content:flex-end; gap:.75rem; margin-top:1.5rem; }
.delete-actions button { min-height:2.75rem; padding:.65rem 1rem; border:1px solid var(--line); border-radius:.6rem; color:var(--ink); background:var(--surface); font-family:inherit; font-size:.875rem; font-weight:600; line-height:1.2; cursor:pointer; }
.delete-actions button:hover { background:var(--accent-soft); }
.delete-actions #delete-confirm { border-color:transparent; color:#fff; background:#b42336; }
.delete-actions #delete-confirm:hover { background:#941b2b; }
.delete-actions button:disabled { opacity:.6; cursor:wait; }
.image-lightbox { position:fixed; z-index:20; inset:0; display:grid; place-items:center; padding:max(1rem,env(safe-area-inset-top)) max(1rem,env(safe-area-inset-right)) max(1rem,env(safe-area-inset-bottom)) max(1rem,env(safe-area-inset-left)); overflow:hidden; color:#fff; background:rgba(7,8,12,.92); backdrop-filter:blur(18px) saturate(115%); touch-action:none; user-select:none; }
.lightbox-shell { display:grid; grid-template-rows:auto auto minmax(0,1fr); gap:.65rem; width:min(100%,1480px); height:100%; min-height:0; }
.lightbox-position { color:rgba(255,255,255,.72); font:600 .76rem/1 ui-monospace,SFMono-Regular,Consolas,monospace; font-variant-numeric:tabular-nums; letter-spacing:.04em; text-align:center; transition:opacity .22s ease,transform .3s cubic-bezier(.16,1,.3,1); }
.lightbox-filmstrip { display:grid; grid-template-columns:repeat(7,3.5rem); justify-content:center; align-items:center; gap:.4rem; min-height:3.5rem; transition:opacity .22s ease,transform .3s cubic-bezier(.16,1,.3,1); }
.filmstrip-slot { display:grid; place-items:center; width:3.5rem; height:3.5rem; }
"#;

pub const DIRECTORY_CSS_7: &'static str = r#".filmstrip-thumb { display:grid; place-items:center; width:3rem; height:2.25rem; padding:0; overflow:hidden; border:1px solid rgba(255,255,255,.18); border-radius:.42rem; background:rgba(255,255,255,.07); box-shadow:0 4px 14px rgba(0,0,0,.22); cursor:pointer; opacity:.66; transform:scale(.94); transition:transform .2s cubic-bezier(.16,1,.3,1),opacity .16s ease,border-color .16s ease,box-shadow .2s ease; }
.filmstrip-thumb img { display:block; width:100%; height:100%; object-fit:cover; }
.filmstrip-thumb:hover { opacity:1; transform:scale(1); }
.filmstrip-thumb[aria-current="true"] { width:3.5rem; height:2.75rem; border-color:rgba(255,255,255,.88); box-shadow:0 7px 20px rgba(0,0,0,.38); opacity:1; transform:scale(1); }
.image-lightbox figure { position:relative; display:grid; grid-template-rows:minmax(0,1fr) auto auto auto; gap:.7rem; min-width:0; min-height:0; margin:0; }
.lightbox-stage { position:relative; display:grid; place-items:center; min-width:0; min-height:0; overflow:hidden; contain:layout paint; }
.carousel-backdrop { position:absolute; z-index:0; inset:-4%; display:none; background-position:center; background-size:cover; opacity:.66; filter:blur(12px) brightness(.4) saturate(1.06); transform:scale(1.08); pointer-events:none; }
.lightbox-stage .lightbox-image { position:absolute; z-index:1; inset:0; display:block; width:100%; height:100%; object-fit:scale-down; filter:drop-shadow(0 18px 32px rgba(0,0,0,.32)); will-change:transform,opacity; transition:opacity .16s ease; }
.lightbox-stage .lightbox-image.loading { opacity:0; }
.lightbox-placeholder,.gesture-neighbour { position:absolute; z-index:1; inset:0; display:block; width:100%; height:100%; object-fit:contain; transform:translate3d(var(--gesture-x,0),var(--gesture-y,0),0); will-change:transform,opacity; }
.lightbox-placeholder { opacity:1; filter:blur(7px) saturate(.9); transform:translate3d(var(--gesture-x,0),var(--gesture-y,0),0) scale(1.015); transition:opacity .2s ease; }
.lightbox-placeholder.loaded { opacity:0; }
.gesture-neighbour { z-index:2; filter:drop-shadow(0 18px 32px rgba(0,0,0,.25)); }
.lightbox-state { position:absolute; z-index:4; display:flex; align-items:center; gap:.42rem; opacity:0; transform:translateY(.3rem); transition:opacity .2s ease,transform .3s cubic-bezier(.16,1,.3,1); pointer-events:none; }
.lightbox-favourite-state { display:none; width:1.2rem; height:1.2rem; color:rgba(255,255,255,.92); filter:drop-shadow(0 2px 4px rgba(0,0,0,.6)); }
.lightbox-favourite-state svg { display:block; width:100%; height:100%; }
.lightbox-favourite-state path { fill:rgba(8,9,14,.28); stroke:currentColor; stroke-width:1.65; stroke-linejoin:round; }
.lightbox-favourite-state.liked { display:block; color:#ff4f78; }
.lightbox-favourite-state.liked path { fill:currentColor; stroke:rgba(255,255,255,.92); stroke-width:.75; }
.lightbox-deletion-state { padding:.15rem .3rem; border-radius:.3rem; color:#fff; background:#b42336; box-shadow:0 2px 7px rgba(0,0,0,.3); font:700 .52rem/1.2 ui-sans-serif,-apple-system,sans-serif; white-space:nowrap; }
.image-loading,.image-load-error { position:absolute; z-index:5; left:50%; bottom:1.25rem; display:flex; align-items:center; gap:.65rem; min-height:2.4rem; padding:.55rem .8rem; border-radius:.7rem; color:rgba(255,255,255,.9); background:rgba(16,18,25,.82); font-size:.75rem; transform:translateX(-50%); backdrop-filter:blur(12px); }
"#;

pub const DIRECTORY_CSS_8: &'static str = r#".image-loading i { width:.9rem; height:.9rem; border:2px solid rgba(255,255,255,.25); border-top-color:#fff; border-radius:50%; animation:image-spin .7s linear infinite; }
.image-load-error button { min-height:2rem; padding:.35rem .65rem; border:0; border-radius:.45rem; color:#11131a; background:#fff; font:650 .72rem/1 sans-serif; cursor:pointer; }
@keyframes image-spin { to { transform:rotate(1turn); } }
.heart-particles { position:absolute; z-index:8; inset:0; overflow:visible; pointer-events:none; }
.heart-particles span { position:absolute; display:block; width:clamp(1rem,2.4vw,1.7rem); color:#ff4f78; filter:drop-shadow(0 5px 8px rgba(0,0,0,.3)); will-change:transform,opacity; }
.heart-particles span[hidden] { display:none; }
.heart-particles svg { display:block; width:100%; }
.heart-particles path { fill:currentColor; stroke:rgba(255,255,255,.95); stroke-width:.65; }
.heart-particles span.outline path { fill:rgba(20,22,31,.4); stroke:#ff9bb0; stroke-width:1.4; }
.lightbox-stage .lightbox-image.preview-outgoing { position:absolute; inset:0; width:100%; height:100%; }
.favourite-burst { position:absolute; z-index:2; inset:50% auto auto 50%; width:clamp(5rem,13vw,8rem); color:rgba(255,255,255,.92); pointer-events:none; transform:translate(-50%,-50%); filter:drop-shadow(0 12px 24px rgba(0,0,0,.3)); }
.favourite-burst svg { display:block; width:100%; height:auto; overflow:visible; }
.favourite-burst path { fill:rgba(12,13,18,.42); stroke:currentColor; stroke-width:1.4; stroke-linejoin:round; }
.favourite-burst.liked { color:#ff4f78; }
.favourite-burst.liked path { fill:currentColor; stroke:#fff; stroke-width:.7; }
.image-lightbox figcaption { display:flex; flex-wrap:wrap; align-items:center; justify-content:center; gap:.65rem .75rem; min-width:0; padding:0 .25rem .15rem; font-size:.82rem; transition:opacity .22s ease,transform .3s cubic-bezier(.16,1,.3,1); }
.lightbox-name { min-width:0; overflow:hidden; text-overflow:ellipsis; white-space:nowrap; }
.lightbox-controls { display:flex; flex-shrink:0; align-items:center; gap:.4rem; transition:opacity .22s ease,transform .3s cubic-bezier(.16,1,.3,1); }
.preview-step,.deletion-toggle,.carousel-toggle,.comment-toggle,.viewer-more-toggle,.viewer-tools button,.shortcut-help-toggle { position:relative; display:grid; place-items:center; min-width:2.75rem; height:2.75rem; padding:0 .7rem; border:1px solid rgba(255,255,255,.26); border-radius:.8rem; color:#fff; background:rgba(255,255,255,.045); font:650 .72rem/1 sans-serif; cursor:pointer; transition:background .18s ease,border-color .18s ease,transform .18s cubic-bezier(.16,1,.3,1); }
.preview-step,.deletion-toggle,.carousel-toggle,.comment-toggle,.viewer-more-toggle { width:2.75rem; padding:0; }
.preview-step svg,.deletion-toggle svg,.carousel-toggle svg,.comment-toggle svg,.viewer-more-toggle svg,.viewer-tools svg,.shortcut-help-toggle svg,.lightbox-close svg,.gallery-comments button svg { width:1.15rem; fill:none; stroke:currentColor; stroke-width:1.7; stroke-linecap:round; stroke-linejoin:round; }
.carousel-toggle .icon-fill { fill:currentColor; stroke:none; }
.preview-step:hover,.deletion-toggle:hover,.carousel-toggle:hover,.comment-toggle:hover,.viewer-more-toggle:hover,.viewer-tools button:hover,.shortcut-help-toggle:hover { background:rgba(255,255,255,.12); transform:translateY(-1px); }
.preview-step:disabled,.deletion-toggle:disabled,.carousel-toggle:disabled { opacity:.35; cursor:default; }
"#;

pub const DIRECTORY_CSS_9: &'static str = r#".deletion-toggle[aria-pressed="true"] { border-color:#ff9ba9; color:#fff; background:#b42336; }
.carousel-toggle[aria-pressed="true"] { border-color:rgba(255,255,255,.82); background:rgba(255,255,255,.16); }
.comment-toggle[aria-expanded="true"] { border-color:#b9b5ff; color:#d5d2ff; background:rgba(91,91,214,.25); }
.comment-toggle b { position:absolute; top:-.35rem; right:-.35rem; display:grid; place-items:center; min-width:1.15rem; height:1.15rem; padding:0 .25rem; border:2px solid #11131a; border-radius:999px; color:#11131a; background:#d5d2ff; font:750 .6rem/1 ui-monospace,SFMono-Regular,Consolas,monospace; }
.viewer-more-toggle svg { transition:transform .24s cubic-bezier(.16,1,.3,1); }
.viewer-more-toggle.open svg { transform:rotate(180deg); }
.favourite-toggle { flex-shrink:0; display:grid; place-items:center; width:3rem; height:3rem; padding:0; border:1px solid rgba(255,255,255,.3); border-radius:50%; color:#fff; background:rgba(255,255,255,.045); cursor:pointer; }
.favourite-toggle svg { width:1.5rem; fill:transparent; stroke:currentColor; stroke-width:1.45; transition:fill .18s ease,color .18s ease; }
.favourite-toggle:hover { background:rgba(255,255,255,.1); }
.favourite-toggle[aria-pressed="true"] { color:#ff6685; }
.favourite-toggle[aria-pressed="true"] svg { fill:currentColor; }
.favourite-toggle:disabled { opacity:.5; cursor:wait; }
.lightbox-error { margin:0; color:#ff9ba9; font-size:.82rem; text-align:center; }
.lightbox-close { position:fixed; z-index:9; top:max(1rem,env(safe-area-inset-top)); right:max(1rem,env(safe-area-inset-right)); display:grid; place-items:center; width:2.75rem; height:2.75rem; padding:0; border:0; color:rgba(255,255,255,.78); background:transparent; cursor:pointer; transition:color .18s ease,opacity .22s ease,transform .3s cubic-bezier(.16,1,.3,1); }
.lightbox-close svg { width:1.35rem; }
.lightbox-close:hover { color:#fff; transform:scale(1.08); }
.viewer-extras { flex-basis:100%; display:flex; justify-content:center; align-items:center; gap:.35rem; animation:viewer-extras-in .24s cubic-bezier(.16,1,.3,1); }
@keyframes viewer-extras-in { from { opacity:0; transform:translateY(-.35rem); } }
.viewer-tools { display:flex; gap:.3rem; }
.viewer-tools button[data-view="fit"],.viewer-tools button[data-view="actual"] { min-width:3.2rem; }
.image-info,.shortcut-help { position:absolute; z-index:7; right:.5rem; bottom:4.2rem; display:flex; flex-wrap:wrap; align-items:center; gap:.65rem; max-width:min(92vw,36rem); padding:.75rem .9rem; border:1px solid rgba(255,255,255,.16); border-radius:.8rem; color:rgba(255,255,255,.82); background:rgba(14,16,23,.88); box-shadow:0 14px 44px rgba(0,0,0,.3); backdrop-filter:blur(16px); font-size:.72rem; }
.image-info a { color:#fff; text-underline-offset:.2em; }
.shortcut-help { left:50%; right:auto; justify-content:center; transform:translateX(-50%); }
.gallery-toast { position:fixed; z-index:15; left:50%; bottom:max(1.25rem,env(safe-area-inset-bottom)); max-width:calc(100vw - 2rem); padding:.7rem .95rem; border:1px solid rgba(255,255,255,.18); border-radius:.7rem; color:#fff; background:rgba(17,19,27,.92); box-shadow:0 14px 44px rgba(0,0,0,.38); backdrop-filter:blur(16px); font:650 .76rem/1.4 ui-sans-serif,-apple-system,sans-serif; transform:translateX(-50%); pointer-events:none; }
"#;

pub const DIRECTORY_CSS_10: &'static str = r#".gallery-comments { position:fixed; z-index:12; top:max(1rem,env(safe-area-inset-top)); right:max(1rem,env(safe-area-inset-right)); bottom:max(1rem,env(safe-area-inset-bottom)); display:grid; grid-template-columns:minmax(0,1fr); grid-template-rows:auto auto minmax(0,1fr) auto auto; width:min(25rem,calc(100vw - 2rem)); overflow:hidden; border:1px solid rgba(255,255,255,.18); border-radius:1.1rem; color:#f5f5fa; background:rgba(17,19,27,.96); box-shadow:0 28px 90px rgba(0,0,0,.52); backdrop-filter:blur(24px) saturate(125%); animation:gallery-comments-in .34s cubic-bezier(.16,1,.3,1); }
@keyframes gallery-comments-in { from { opacity:0; transform:translateX(1.5rem) scale(.985); } }
.gallery-comments>header { grid-area:1/1; display:flex; align-items:center; justify-content:space-between; padding:1.1rem 1.15rem .9rem; border-bottom:1px solid rgba(255,255,255,.1); }
.gallery-comments>header div { display:grid; gap:.25rem; }
.gallery-comments>header span { color:#aaa6ff; font:750 .62rem/1 ui-monospace,SFMono-Regular,Consolas,monospace; letter-spacing:.13em; }
.gallery-comments>header strong { font:700 1rem/1.2 ui-sans-serif,-apple-system,sans-serif; }
.gallery-comments>header button { display:grid; place-items:center; width:2.5rem; height:2.5rem; padding:0; border:1px solid rgba(255,255,255,.14); border-radius:.75rem; color:#fff; background:transparent; cursor:pointer; }
.gallery-comments-image { grid-area:2/1; display:grid; grid-template-columns:3.4rem minmax(0,1fr) auto; align-items:center; gap:.8rem; padding:.85rem 1.15rem; border-bottom:1px solid rgba(255,255,255,.08); background:rgba(255,255,255,.025); }
.gallery-comments-image img { width:3.4rem; height:3.4rem; border-radius:.65rem; object-fit:cover; background:#090a0f; }
.gallery-comments-image div { display:grid; min-width:0; gap:.3rem; }
.gallery-comments-image strong { overflow:hidden; font-size:.82rem; text-overflow:ellipsis; white-space:nowrap; }
.gallery-comments-image span { color:rgba(255,255,255,.55); font-size:.7rem; }
.gallery-comments-image [data-comment-delete-all] { padding:.4rem 0; border:0; color:rgba(255,143,162,.78); background:transparent; font:650 .66rem/1.2 sans-serif; cursor:pointer; }
.gallery-comments-image [data-comment-delete-all]:hover,.gallery-comments-image [data-comment-delete-all][data-confirm="true"] { color:#ff9bae; }
.gallery-comments-image [data-comment-delete-all]:disabled { opacity:.45; cursor:wait; }
.gallery-comment-list { grid-area:3/1; min-height:0; overflow:auto; padding:0 1.15rem; overscroll-behavior:contain; scrollbar-color:rgba(255,255,255,.24) transparent; }
.gallery-comment-list article { padding:1rem 0; border-bottom:1px solid rgba(255,255,255,.09); }
.gallery-comment-list article>header { display:flex; align-items:baseline; justify-content:space-between; gap:.75rem; }
.gallery-comment-list article strong { color:#fff; font-size:.76rem; }
.gallery-comment-list article time { color:rgba(255,255,255,.42); font:500 .62rem/1.3 ui-monospace,SFMono-Regular,Consolas,monospace; text-align:right; }
.gallery-comment-list article p { margin:.55rem 0 .7rem; color:rgba(255,255,255,.8); font-size:.82rem; line-height:1.65; white-space:pre-wrap; overflow-wrap:anywhere; user-select:text; }
.gallery-comment-list article>div { display:flex; gap:.75rem; }
"#;

pub const DIRECTORY_CSS_11: &'static str = r#".gallery-comment-list article button,.gallery-comment-composer [data-comment-cancel] { padding:0; border:0; color:rgba(255,255,255,.5); background:transparent; font:650 .68rem/1 sans-serif; cursor:pointer; }
.gallery-comment-list article button:hover,.gallery-comment-composer [data-comment-cancel]:hover { color:#fff; }
.gallery-comment-list [data-comment-delete][data-confirm="true"] { color:#ff8fa2; }
.gallery-comment-empty { grid-area:3/1; place-self:center; display:grid; justify-items:center; gap:.4rem; padding:2rem; color:rgba(255,255,255,.5); text-align:center; pointer-events:none; }
.gallery-comment-empty strong { color:rgba(255,255,255,.78); font-size:.86rem; }
.gallery-comment-empty span { max-width:18rem; font-size:.72rem; line-height:1.55; }
.gallery-comments.loading .gallery-comment-empty { display:none; }
.gallery-comment-composer { grid-area:4/1; min-height:0; max-height:min(52dvh,23rem); display:grid; gap:.7rem; overflow-y:auto; padding:1rem 1.15rem; border-top:1px solid rgba(255,255,255,.1); background:rgba(8,9,14,.46); overscroll-behavior:contain; scrollbar-color:rgba(255,255,255,.24) transparent; }
.gallery-comment-identity { display:flex; align-items:center; justify-content:space-between; gap:.75rem; color:rgba(255,255,255,.52); font:650 .68rem/1.3 sans-serif; }
.gallery-comment-identity strong { color:rgba(255,255,255,.9); }
.gallery-comment-identity button { padding:.25rem 0; border:0; color:#b9b5ff; background:transparent; font:650 .68rem/1 sans-serif; cursor:pointer; }
.gallery-comment-composer label { display:grid; gap:.35rem; color:rgba(255,255,255,.5); font:650 .65rem/1 sans-serif; }
.gallery-comment-composer input,.gallery-comment-composer textarea { width:100%; border:1px solid rgba(255,255,255,.14); border-radius:.7rem; color:#fff; background:rgba(255,255,255,.055); font:500 .8rem/1.55 ui-sans-serif,-apple-system,"Noto Sans SC",sans-serif; caret-color:#b9b5ff; outline:none; }
.gallery-comment-composer input { height:2.5rem; padding:0 .75rem; }
.gallery-comment-composer textarea { min-height:5.7rem; max-height:12rem; padding:.65rem .75rem; resize:vertical; }
.gallery-comment-composer input:focus,.gallery-comment-composer textarea:focus { border-color:#aaa6ff; box-shadow:0 0 0 3px rgba(170,166,255,.12); }
.gallery-comment-hint { margin:-.25rem 0 0; color:rgba(255,255,255,.38); font:600 .64rem/1.4 ui-monospace,SFMono-Regular,Consolas,monospace; }
.gallery-comment-composer>div { display:flex; align-items:center; justify-content:flex-end; gap:.9rem; }
.gallery-comment-composer .comment-submit { min-height:2.5rem; padding:.65rem 1rem; border:0; border-radius:.7rem; color:#11131a; background:#d5d2ff; font:750 .72rem/1 sans-serif; cursor:pointer; }
.gallery-comment-composer .comment-submit:disabled { opacity:.55; cursor:wait; }
.gallery-comment-error { margin:0; color:#ff9bad; font-size:.7rem; }
.gallery-comments>footer { grid-area:5/1; display:flex; align-items:center; justify-content:space-between; gap:.75rem; padding:.7rem 1.15rem; border-top:1px solid rgba(255,255,255,.08); color:rgba(255,255,255,.35); font:550 .62rem/1.4 ui-monospace,SFMono-Regular,Consolas,monospace; }
.gallery-comments>footer a { color:#aaa6ff; text-underline-offset:.2em; }
.carousel-hud { position:fixed; z-index:10; left:50%; bottom:max(1.25rem,env(safe-area-inset-bottom)); display:none; gap:.45rem; transform:translateX(-50%); transition:opacity .22s ease,transform .3s cubic-bezier(.16,1,.3,1); }
"#;

pub const DIRECTORY_CSS_12: &'static str = r#".carousel-hud button { min-height:2.75rem; padding:.65rem .9rem; border:1px solid rgba(255,255,255,.25); border-radius:.75rem; color:#fff; background:rgba(12,14,20,.72); backdrop-filter:blur(12px); cursor:pointer; }
.carousel-notice { align-self:center; padding:.55rem .7rem; border-radius:.65rem; color:rgba(255,255,255,.78); background:rgba(12,14,20,.72); font-size:.72rem; backdrop-filter:blur(12px); }
.image-lightbox.chrome-hidden figcaption { display:grid; grid-template-columns:minmax(0,1fr); justify-items:center; }
.image-lightbox.chrome-hidden .lightbox-name,.image-lightbox.chrome-hidden .lightbox-controls { grid-area:1/1; }
.image-lightbox.chrome-hidden .lightbox-controls { opacity:0; pointer-events:none; transform:translateY(.55rem); }
.image-lightbox:not(.carousel-mode) .lightbox-state { opacity:1; transform:none; }
.image-lightbox.carousel-mode { padding:0; background:#000; backdrop-filter:none; }
.image-lightbox:fullscreen { width:100vw; height:100vh; height:100dvh; inset:0; }
.image-lightbox:-webkit-full-screen { width:100vw; height:100vh; height:100dvh; inset:0; }
.image-lightbox.carousel-mode .lightbox-close,.image-lightbox.carousel-mode .lightbox-position,.image-lightbox.carousel-mode .lightbox-filmstrip,.image-lightbox.carousel-mode figcaption,.image-lightbox.carousel-mode .lightbox-state,.image-lightbox.carousel-mode .lightbox-error,.image-lightbox.carousel-mode .image-info,.image-lightbox.carousel-mode .shortcut-help,.image-lightbox.carousel-mode .gallery-comments { display:none; }
.image-lightbox.carousel-mode .carousel-hud { display:flex; }
.image-lightbox.carousel-mode .lightbox-shell { grid-template-rows:minmax(0,1fr); width:100%; height:100%; }
.image-lightbox.carousel-mode figure { grid-template-rows:minmax(0,1fr); }
.image-lightbox.carousel-mode .carousel-backdrop { display:block; }
.image-lightbox.carousel-mode .lightbox-stage .lightbox-image,.image-lightbox.carousel-mode .lightbox-placeholder { width:100%; height:100%; max-width:100vw; max-height:100vh; max-height:100dvh; object-fit:contain; filter:none; }
.empty { display:grid; grid-column:1/-1; place-items:center; min-height:14rem; color:var(--muted); }
.empty span { font:300 3rem/1 ui-monospace,SFMono-Regular,Consolas,monospace; }
.empty p { margin:.8rem 0 0; }
:focus-visible { outline:3px solid color-mix(in srgb,var(--accent) 55%,transparent); outline-offset:-3px; }
"#;

pub const DIRECTORY_CSS_13: &'static str = r#"@media (max-width:650px) { main,.gallery-mode main { width:100%; padding:1rem; } main>header { padding:1.5rem 1.1rem; } .view-toggle { position:relative; right:auto; top:auto; width:max-content; margin-top:1rem; } .directory-browser-tools { grid-template-columns:1fr; } .directory-sort { justify-self:end; } .entry { grid-template-columns:2.4rem minmax(0,1fr) auto; padding-inline:1rem; } .kind,.arrow { display:none; } .detail { grid-column:3; } .folder .detail { display:none; } .folder-favourite-toggle { position:static; grid-column:3; justify-self:end; } .entry.image .glyph { width:2.4rem; height:2.4rem; } .listing.gallery { grid-template-columns:repeat(auto-fill,minmax(145px,1fr)); gap:.65rem; padding:.65rem; } .gallery .entry { grid-template-columns:minmax(0,1fr); grid-template-rows:8.5rem auto auto; padding:.6rem; } .gallery .entry:hover { padding:.6rem; } .gallery .entry.image .glyph { width:100%; height:100%; } .gallery .detail { grid-column:1; grid-row:3; justify-self:start; } .scroll-jumps { right:max(.4rem,env(safe-area-inset-right)); } .scroll-jumps button { width:2.8rem; height:2.8rem; } .image-lightbox { padding:max(.7rem,env(safe-area-inset-top)) max(.7rem,env(safe-area-inset-right)) max(.7rem,env(safe-area-inset-bottom)) max(.7rem,env(safe-area-inset-left)); } .lightbox-shell { gap:.45rem; } .lightbox-filmstrip { grid-template-columns:repeat(5,3.35rem); gap:.25rem; } .filmstrip-slot { width:3.35rem; } .filmstrip-slot[data-distance="3"] { display:none; } .image-lightbox figcaption { flex-wrap:wrap; } .lightbox-name { width:100%; text-align:center; } .lightbox-controls { gap:.25rem; } .preview-step,.deletion-toggle,.carousel-toggle,.comment-toggle,.viewer-more-toggle { min-width:2.8rem; width:2.8rem; height:2.8rem; } .favourite-toggle { width:2.9rem; height:2.9rem; } .gallery-comments { inset:auto max(.45rem,env(safe-area-inset-right)) max(.45rem,env(safe-area-inset-bottom)) max(.45rem,env(safe-area-inset-left)); width:auto; height:min(92dvh,42rem); border-radius:1.15rem; animation-name:gallery-comments-mobile-in; } @keyframes gallery-comments-mobile-in { from { opacity:0; transform:translateY(1.5rem) scale(.985); } } .gallery-comment-composer textarea { min-height:4.8rem; } }
@media (max-height:620px) { .gallery-comments>header { padding:.7rem .9rem .6rem; } .gallery-comments>header button { width:2.15rem; height:2.15rem; } .gallery-comments-image { grid-template-columns:2.7rem minmax(0,1fr) auto; gap:.65rem; padding:.55rem .9rem; } .gallery-comments-image img { width:2.7rem; height:2.7rem; } .gallery-comment-empty { gap:.25rem; padding:.75rem; } .gallery-comment-composer { max-height:58dvh; gap:.5rem; padding:.7rem .9rem; } .gallery-comment-composer textarea { min-height:4rem; } .gallery-comments>footer { display:none; } }
@media (max-width:1024px),(hover:none) and (pointer:coarse) { .preview-step,.deletion-toggle,.carousel-toggle,.comment-toggle,.viewer-more-toggle,.viewer-tools button,.shortcut-help-toggle { min-width:3rem; height:3rem; } .lightbox-controls { width:100%; min-width:0; flex-shrink:1; justify-content:center; flex-wrap:wrap; } .viewer-extras,.viewer-tools { width:100%; justify-content:center; border:0; } .image-info,.shortcut-help { left:50%; right:auto; bottom:8.7rem; width:max-content; max-width:calc(100vw - 2rem); transform:translateX(-50%); } }
"#;

pub const DIRECTORY_CSS_14: &'static str = r#"@media (hover:none) and (pointer:coarse) { .listing.gallery .entry.image,.listing.gallery .entry.image:hover { display:block; padding:0; } .listing.gallery .entry.image::after,.listing.gallery .entry.image .entry-name,.listing.gallery .entry.image .detail { opacity:1; transform:none; } .image-lightbox figcaption { padding-bottom:max(.2rem,env(safe-area-inset-bottom)); } }
@media (prefers-color-scheme:dark) { :root { --paper:#11131b; --surface:#191c27; --ink:#edf0f7; --muted:#a7adbd; --line:#303545; --accent:#a9a5ff; --accent-soft:#292943; --folder:#8e8af5; --grid:#262b38; } body { background-image:radial-gradient(circle at 50% -20%,#252943 0,transparent 38rem); } .listing { box-shadow:0 25px 70px rgba(0,0,0,.25); } }
@media (prefers-reduced-motion:reduce) { .entry,.arrow,.entry.image .glyph img,.filmstrip-thumb { transition:none; } .entry.image:hover .glyph img,.gallery .entry:hover,.filmstrip-thumb { transform:none; } }
"#;

pub const DIRECTORY_JS_1: &'static str = r#"
history.scrollRestoration = 'manual';
window.addEventListener('beforeunload', () => {
  history.replaceState({...history.state, scrollX, scrollY}, '');
});

const directoryNotice = document.querySelector('#directory-notice');
const directoryFavouriteToggle = document.querySelector('#directory-favourite-toggle');
const favouritePathname = path => new URL(path, location.origin).pathname;
const favouriteLabel = path => {
  const parts = favouritePathname(path).split('/').filter(Boolean).map(decodeURIComponent);
  return parts.length ? parts.join('/') : 'root';
};
const createDirectoryFavouriteItem = path => {
  const item = document.createElement('span');
  item.className = 'directory-favourite';
  item.dataset.directoryFavouritePath = favouritePathname(path);
  item.draggable = true;
  const link = document.createElement('a');
  link.href = path;
  const parts = favouritePathname(path).split('/').filter(Boolean).map(decodeURIComponent);
  const label = parts.length ? parts.join('/') : 'root';
  link.title = label;
  if (parts.length > 1) {
    const prefix = document.createElement('span');
    prefix.className = 'directory-favourite-prefix';
    prefix.textContent = parts.slice(0, -1).join('/');
    const separator = document.createElement('span');
    separator.className = 'directory-favourite-separator';
    separator.textContent = '/';
    const leaf = document.createElement('span');
    leaf.className = 'directory-favourite-leaf';
    leaf.textContent = parts.at(-1);
    link.append(prefix, separator, leaf);
  } else {
    link.textContent = label;
  }
  if (favouritePathname(path) === location.pathname) link.setAttribute('aria-current', 'page');
  const drag = document.createElement('button');
  drag.className = 'directory-favourite-drag';
  drag.type = 'button';
  drag.setAttribute('aria-label', `拖动排序：${label}`);
  drag.title = '拖动排序';
  drag.textContent = '⠿';
  const remove = document.createElement('button');
  remove.type = 'button';
  remove.dataset.directoryFavouriteRemove = path;
  remove.setAttribute('aria-label', `移出收藏夹：${label}`);
  remove.title = '移出收藏夹';
  remove.textContent = '×';
  item.append(drag, link, remove);
  return item;
};
const ensureDirectoryFavourites = () => {
  let nav = document.querySelector('.directory-favourites');
  if (nav) return nav;
  nav = document.createElement('nav');
  nav.className = 'directory-favourites';
  nav.setAttribute('aria-label', '收藏目录');
  nav.innerHTML = '<span class="directory-favourites-label">收藏夹</span><div class="directory-favourites-list"></div>';
  document.querySelector('.breadcrumbs').insertAdjacentElement('afterend', nav);
  return nav;
};
const ensureDirectoryFavouritesMore = nav => {
  let more = nav.querySelector('.directory-favourites-more');
  if (more) return more.querySelector('.directory-favourites-menu');
  more = document.createElement('details');
  more.className = 'directory-favourites-more';
  more.innerHTML = '<summary aria-label="展开更多收藏目录"><span>更多</span><svg viewBox="0 0 16 16" aria-hidden="true"><path d="m4.5 6 3.5 3.5L11.5 6"/></svg></summary><div class="directory-favourites-menu"></div>';
  nav.append(more);
  return more.querySelector('.directory-favourites-menu');
};
const directoryFavouriteItems = () => Array.from(
  document.querySelectorAll('.directory-favourites-list .directory-favourite, .directory-favourites-menu .directory-favourite')
);
"#;

pub const DIRECTORY_JS_2: &'static str = r#"const directoryFavouriteVisibleLimit = () => window.matchMedia('(max-width:650px)').matches ? 1 : 3;
const renderDirectoryFavouriteOrder = items => {
  const nav = document.querySelector('.directory-favourites');
  if (!nav) return;
  const visibleLimit = directoryFavouriteVisibleLimit();
  nav.querySelector('.directory-favourites-list').replaceChildren(...items.slice(0, visibleLimit));
  if (items.length > visibleLimit) {
    ensureDirectoryFavouritesMore(nav).replaceChildren(...items.slice(visibleLimit));
  } else {
    nav.querySelector('.directory-favourites-more')?.remove();
  }
};
renderDirectoryFavouriteOrder(directoryFavouriteItems());
window.matchMedia('(max-width:650px)').addEventListener('change', () => {
  renderDirectoryFavouriteOrder(directoryFavouriteItems());
});
const moveDirectoryFavourite = (dragged, target) => {
  const items = directoryFavouriteItems();
  const from = items.indexOf(dragged);
  const to = items.indexOf(target);
  if (from < 0 || to < 0 || from === to) return;
  items.splice(from, 1);
  items.splice(to, 0, dragged);
  renderDirectoryFavouriteOrder(items);
};
const saveDirectoryFavouriteOrder = async previous => {
  try {
    const url = new URL(location.pathname, location.origin);
    url.searchParams.set('mode', 'directory-favourite-order');
    const paths = directoryFavouriteItems().map(item => item.dataset.directoryFavouritePath);
    const response = await fetch(url, {method: 'POST', body: JSON.stringify(paths)});
    if (!response.ok) throw new Error('保存收藏夹顺序失败，请重试。');
  } catch (error) {
    renderDirectoryFavouriteOrder(previous);
    directoryNotice.textContent = error.message;
    directoryNotice.hidden = false;
  }
};
let draggedDirectoryFavourite = null;
let previousDirectoryFavouriteOrder = [];
document.addEventListener('dragstart', event => {
  const item = event.target.closest?.('.directory-favourite');
  if (!item) return;
  if (item.querySelector('.directory-favourite-name-input')) {
    event.preventDefault();
    return;
  }
  draggedDirectoryFavourite = item;
  previousDirectoryFavouriteOrder = directoryFavouriteItems();
  draggedDirectoryFavourite.classList.add('dragging');
  event.dataTransfer.effectAllowed = 'move';
  event.dataTransfer.setData('text/plain', draggedDirectoryFavourite.dataset.directoryFavouritePath);
});
document.addEventListener('dragover', event => {
  if (!draggedDirectoryFavourite) return;
  const target = event.target.closest?.('.directory-favourite');
  if (!target || target === draggedDirectoryFavourite) return;
  event.preventDefault();
  event.dataTransfer.dropEffect = 'move';
  moveDirectoryFavourite(draggedDirectoryFavourite, target);
});
document.addEventListener('drop', event => {
  if (!draggedDirectoryFavourite || !event.target.closest?.('.directory-favourites')) return;
  event.preventDefault();
});
document.addEventListener('dragend', () => {
  if (!draggedDirectoryFavourite) return;
  draggedDirectoryFavourite.classList.remove('dragging');
  const changed = directoryFavouriteItems().some(
    (item, index) => item !== previousDirectoryFavouriteOrder[index]
  );
  if (changed) saveDirectoryFavouriteOrder(previousDirectoryFavouriteOrder);
  draggedDirectoryFavourite = null;
});
let touchDirectoryFavouriteDrag = null;
document.addEventListener('pointerdown', event => {
  const handle = event.target.closest?.('.directory-favourite-drag');
  if (!handle || event.pointerType === 'mouse') return;
"#;

pub const DIRECTORY_JS_3: &'static str = r#"  touchDirectoryFavouriteDrag = {
    handle,
    item: handle.closest('.directory-favourite'),
    previous: directoryFavouriteItems(),
    x: event.clientX,
    y: event.clientY,
    moved: false
  };
  handle.setPointerCapture(event.pointerId);
});
document.addEventListener('pointermove', event => {
  const drag = touchDirectoryFavouriteDrag;
  if (!drag) return;
  if (!drag.moved && Math.hypot(event.clientX - drag.x, event.clientY - drag.y) < 6) return;
  event.preventDefault();
  drag.moved = true;
  drag.item.classList.add('dragging');
  const target = document.elementFromPoint(event.clientX, event.clientY)?.closest('.directory-favourite');
  if (target && target !== drag.item) moveDirectoryFavourite(drag.item, target);
});
const finishTouchDirectoryFavouriteDrag = event => {
  const drag = touchDirectoryFavouriteDrag;
  if (!drag) return;
  drag.item.classList.remove('dragging');
  if (event.type === 'pointerup' && drag.moved) saveDirectoryFavouriteOrder(drag.previous);
  else if (drag.moved) renderDirectoryFavouriteOrder(drag.previous);
  touchDirectoryFavouriteDrag = null;
};
document.addEventListener('pointerup', finishTouchDirectoryFavouriteDrag);
document.addEventListener('pointercancel', finishTouchDirectoryFavouriteDrag);
let directoryFavouriteNavigationTimer = null;
document.addEventListener('click', event => {
  const link = event.target.closest?.('.directory-favourite a');
  if (!link) return;
  if (link.classList.contains('editing')) {
    event.preventDefault();
    return;
  }
  if (event.button !== 0 || event.metaKey || event.ctrlKey || event.shiftKey || event.altKey) return;
  if (event.detail === 0) return;
  event.preventDefault();
  clearTimeout(directoryFavouriteNavigationTimer);
  if (event.detail === 1) {
    directoryFavouriteNavigationTimer = setTimeout(() => location.assign(link.href), 260);
  }
});
const renameDirectoryFavourite = item => {
  const link = item.querySelector('a');
  if (link.classList.contains('editing')) return;
  clearTimeout(directoryFavouriteNavigationTimer);
  const original = link.innerHTML;
  const originalLabel = link.textContent;
  const input = document.createElement('input');
  input.className = 'directory-favourite-name-input';
  input.type = 'text';
  input.draggable = false;
  input.value = originalLabel;
  input.setAttribute('aria-label', `修改收藏名称：${originalLabel}`);
  link.classList.add('editing');
  link.draggable = false;
  item.draggable = false;
  link.replaceChildren(input);
  input.focus();
  input.select();
  let finished = false;
  const finish = async save => {
    if (finished) return;
    finished = true;
    const label = input.value.trim();
    link.classList.remove('editing');
    link.draggable = true;
    item.draggable = true;
    if (!save || !label) {
      link.innerHTML = original;
      return;
    }
    link.textContent = label;
    link.title = label;
    item.querySelector('.directory-favourite-drag').setAttribute('aria-label', `拖动排序：${label}`);
    item.querySelector('[data-directory-favourite-remove]').setAttribute('aria-label', `移出收藏夹：${label}`);
    try {
      const url = new URL(item.dataset.directoryFavouritePath, location.origin);
      url.searchParams.set('mode', 'directory-favourite-label');
      const response = await fetch(url, {method: 'POST', body: JSON.stringify(label)});
      if (!response.ok) throw new Error('保存收藏名称失败，请重试。');
    } catch (error) {
"#;

pub const DIRECTORY_JS_4: &'static str = r#"      link.innerHTML = original;
      link.title = originalLabel;
      directoryNotice.textContent = error.message;
      directoryNotice.hidden = false;
    }
  };
  input.addEventListener('keydown', event => {
    if (event.key === 'Enter') {
      event.preventDefault();
      finish(true);
    } else if (event.key === 'Escape') {
      event.preventDefault();
      finish(false);
    }
  });
  input.addEventListener('blur', () => finish(true));
};
document.addEventListener('dblclick', event => {
  const item = event.target.closest?.('.directory-favourite');
  if (!item || event.target.closest('button')) return;
  event.preventDefault();
  renameDirectoryFavourite(item);
});
const setDirectoryFavouriteState = (path, favourite) => {
  const pathname = favouritePathname(path);
  document.querySelectorAll('[data-directory-favourite-toggle]').forEach(button => {
    if (favouritePathname(button.dataset.directoryFavouriteToggle) !== pathname) return;
    button.setAttribute('aria-pressed', String(favourite));
    button.textContent = favourite ? '★' : '☆';
    const label = button.closest('.entry').querySelector('.entry-name').textContent;
    button.title = favourite ? '移出收藏夹' : '添加到收藏夹';
    button.setAttribute('aria-label', `${button.title}：${label}`);
  });
  if (pathname === location.pathname && directoryFavouriteToggle) {
    directoryFavouriteToggle.setAttribute('aria-pressed', String(favourite));
    directoryFavouriteToggle.textContent = favourite ? '移出收藏夹' : '添加到收藏夹';
  }
  const existing = Array.from(document.querySelectorAll('[data-directory-favourite-remove]'))
    .filter(button => favouritePathname(button.dataset.directoryFavouriteRemove) === pathname)
    .map(button => button.closest('.directory-favourite'));
  if (favourite && !existing.length) {
    const nav = ensureDirectoryFavourites();
    const list = nav.querySelector('.directory-favourites-list');
    if (list.children.length < directoryFavouriteVisibleLimit()) list.append(createDirectoryFavouriteItem(path));
    else ensureDirectoryFavouritesMore(nav).append(createDirectoryFavouriteItem(path));
  } else if (!favourite && existing.length) {
    const nav = existing[0].closest('.directory-favourites');
    const removedFromList = existing.some(item => item.closest('.directory-favourites-list'));
    existing.forEach(item => item.remove());
    const menu = nav.querySelector('.directory-favourites-menu');
    if (removedFromList && menu?.firstElementChild) {
      nav.querySelector('.directory-favourites-list').append(menu.firstElementChild);
    }
    if (menu && !menu.children.length) nav.querySelector('.directory-favourites-more').remove();
    if (!nav.querySelector('[data-directory-favourite-remove]')) nav.remove();
  }
};
const updateDirectoryFavourite = async (path, method, button) => {
  button.disabled = true;
  try {
    const url = new URL(path, location.origin);
    url.searchParams.set('mode', 'directory-favourite');
    const response = await fetch(url, {method});
    if (!response.ok) throw new Error('保存目录收藏失败，请重试。');
    setDirectoryFavouriteState(path, method === 'PUT');
    button.disabled = false;
  } catch (error) {
    directoryNotice.textContent = error.message;
    directoryNotice.hidden = false;
    button.disabled = false;
  }
};
document.addEventListener('click', event => {
  const button = event.target.closest('button');
  if (!button) return;
"#;

pub const DIRECTORY_JS_5: &'static str = r#"  if (button === directoryFavouriteToggle) {
    updateDirectoryFavourite(
      location.pathname,
      directoryFavouriteToggle.getAttribute('aria-pressed') === 'true' ? 'DELETE' : 'PUT',
      button
    );
  } else if (button.matches('[data-directory-favourite-toggle]')) {
    updateDirectoryFavourite(
      button.dataset.directoryFavouriteToggle,
      button.getAttribute('aria-pressed') === 'true' ? 'DELETE' : 'PUT',
      button
    );
  } else if (button.matches('[data-directory-favourite-remove]')) {
    updateDirectoryFavourite(button.dataset.directoryFavouriteRemove, 'DELETE', button);
  }
});
if (history.state?.moveNotice) {
  directoryNotice.textContent = history.state.moveNotice;
  directoryNotice.hidden = false;
  const {moveNotice, ...state} = history.state;
  history.replaceState(state, '');
}

const listing = document.querySelector('.listing');
const directorySearch = document.querySelector('#directory-search');
const directorySort = document.querySelector('#directory-sort');
const directoryEmpty = document.querySelector('#directory-empty');
const deletionFilter = document.querySelector('#deletion-filter');
if (typeof history.state?.directorySearch === 'string') {
  directorySearch.value = history.state.directorySearch;
}
if (document.querySelector('#gallery-toggle')) {
  const option = document.createElement('option');
  option.value = 'similarity';
  option.textContent = '按图片相似度';
  directorySort.append(option);
}
const DIRECTORY_SORT_KEY = 'webdir-directory-sort';
const savedDirectorySort = localStorage.getItem(DIRECTORY_SORT_KEY);
if (savedDirectorySort && Array.from(directorySort.options).some(option => option.value === savedDirectorySort)) {
  directorySort.value = savedDirectorySort;
}
const sortableEntries = Array.from(listing.querySelectorAll('.entry'));
sortableEntries.forEach((entry, index) => { entry.dataset.defaultOrder = String(index); });
const entryName = entry => entry.querySelector('.entry-name').textContent;
const compareEntryNames = (left, right) => entryName(left).localeCompare(entryName(right), undefined, {
  numeric: true,
  sensitivity: 'base'
}) || entryName(left).localeCompare(entryName(right));
let similarityOrderRequest = null;
const loadSimilarityOrder = async () => {
  if (!similarityOrderRequest) {
    const url = new URL(location.href);
    url.search = '?mode=similarity-order';
    similarityOrderRequest = fetch(url).then(async response => {
      if (!response.ok) throw new Error((await response.text()).trim() || '无法计算图片相似度');
      return response.json();
    });
  }
  return similarityOrderRequest;
};
const sortDirectory = async () => {
  const entries = sortableEntries.filter(entry => entry.isConnected);
  if (directorySort.value === 'modified') {
    entries.sort((left, right) => Number(right.dataset.modified) - Number(left.dataset.modified) || compareEntryNames(left, right));
  } else if (directorySort.value === 'name') {
    entries.sort(compareEntryNames);
  } else if (directorySort.value === 'similarity') {
    try {
      const order = await loadSimilarityOrder();
      if (directorySort.value !== 'similarity') return;
      const ranks = new Map(order.map((name, index) => [name, index]));
      const category = entry => entry.classList.contains('folder') ? 0 : entry.classList.contains('image') ? 1 : 2;
      entries.sort((left, right) => {
        const categoryOrder = category(left) - category(right);
"#;

pub const DIRECTORY_JS_6: &'static str = r#"        if (categoryOrder) return categoryOrder;
        if (category(left) === 1) return ranks.get(entryName(left)) - ranks.get(entryName(right));
        return Number(left.dataset.defaultOrder) - Number(right.dataset.defaultOrder);
      });
    } catch (error) {
      directoryNotice.textContent = error.message;
      directoryNotice.hidden = false;
      return;
    }
  } else {
    entries.sort((left, right) => Number(left.dataset.defaultOrder) - Number(right.dataset.defaultOrder));
  }
  entries.forEach(entry => listing.insertBefore(entry, directoryEmpty));
};
const filterDirectory = () => {
  const query = directorySearch.value.trim().toLowerCase();
  const markedOnly = deletionFilter?.getAttribute('aria-pressed') === 'true';
  let directoryCount = 0;
  let fileCount = 0;
  listing.querySelectorAll('.entry').forEach(entry => {
    const matchesName = entry.querySelector('.entry-name').textContent.toLowerCase().includes(query);
    entry.hidden = !matchesName || (markedOnly && entry.dataset.deletionMarked !== 'true');
    if (entry.hidden) return;
    if (entry.classList.contains('folder')) directoryCount++;
    else fileCount++;
  });
  document.querySelector('.summary').textContent = `${directoryCount} 个目录 · ${fileCount} 个文件`;
  directoryEmpty.hidden = directoryCount + fileCount > 0;
  const otherHeading = listing.querySelector('.gallery-other-heading');
  if (otherHeading) otherHeading.hidden = !Array.from(listing.querySelectorAll('.entry.file:not(.image)')).some(entry => !entry.hidden);
  directoryEmpty.querySelector('p').textContent = markedOnly
    ? '当前文件夹没有待删除图片'
    : query ? '没有匹配的文件或目录' : '这个目录是空的';
};
directorySearch.addEventListener('input', () => {
  history.replaceState({...history.state, directorySearch: directorySearch.value}, '');
  filterDirectory();
});
directorySort.addEventListener('change', () => {
  localStorage.setItem(DIRECTORY_SORT_KEY, directorySort.value);
  sortDirectory();
});
sortDirectory();
filterDirectory();

const scrollJumps = document.querySelector('#scroll-jumps');
const scrollToTop = scrollJumps.querySelector('#scroll-to-top');
const scrollToBottom = scrollJumps.querySelector('#scroll-to-bottom');
let scrollJumpFrame = null;
let scrollJumpHideTimer = null;
let scrollJumpsVisible = false;
const updateScrollJumps = () => {
  scrollJumpFrame = null;
  const maximum = Math.max(0, document.documentElement.scrollHeight - innerHeight);
  scrollJumps.hidden = maximum < 48 || !scrollJumpsVisible;
  scrollToTop.disabled = scrollY <= 4;
  scrollToBottom.disabled = scrollY >= maximum - 4;
};
const scheduleScrollJumpUpdate = () => {
  if (scrollJumpFrame !== null) return;
  scrollJumpFrame = requestAnimationFrame(updateScrollJumps);
};
const revealScrollJumps = () => {
  scrollJumpsVisible = true;
  clearTimeout(scrollJumpHideTimer);
  scheduleScrollJumpUpdate();
  scrollJumpHideTimer = setTimeout(() => {
    scrollJumpsVisible = false;
    scheduleScrollJumpUpdate();
  }, 900);
};
const jumpScroll = top => window.scrollTo({
  top,
  behavior: matchMedia('(prefers-reduced-motion: reduce)').matches ? 'auto' : 'smooth'
});
scrollToTop.addEventListener('click', () => jumpScroll(0));
scrollToBottom.addEventListener('click', () => jumpScroll(document.documentElement.scrollHeight));
addEventListener('scroll', revealScrollJumps, {passive: true});
addEventListener('resize', scheduleScrollJumpUpdate);
"#;

pub const DIRECTORY_JS_7: &'static str = r#"new ResizeObserver(scheduleScrollJumpUpdate).observe(document.body);
updateScrollJumps();

const galleryToggle = document.querySelector('#gallery-toggle');
if (galleryToggle) {
  const organise = document.querySelector('#gallery-organise');
  const moveFavouriteButton = organise.querySelector('[data-move-images="favourites"]');
  const thumbnails = listing.querySelectorAll('img[data-list-src]');
  const lightbox = document.querySelector('#image-lightbox');
  const lightboxImage = lightbox.querySelector('.lightbox-image');
  const lightboxStage = lightbox.querySelector('.lightbox-stage');
  const lightboxBackdrop = document.createElement('div');
  lightboxBackdrop.className = 'carousel-backdrop';
  lightboxBackdrop.setAttribute('aria-hidden', 'true');
  lightboxStage.prepend(lightboxBackdrop);
  const lightboxPlaceholder = document.createElement('img');
  lightboxPlaceholder.className = 'lightbox-placeholder';
  lightboxPlaceholder.alt = '';
  lightboxPlaceholder.setAttribute('aria-hidden', 'true');
  lightboxPlaceholder.draggable = false;
  lightboxStage.insertBefore(lightboxPlaceholder, lightboxStage.querySelector('.lightbox-image'));
  const imageLoading = document.createElement('div');
  imageLoading.className = 'image-loading';
  imageLoading.hidden = true;
  imageLoading.innerHTML = '<i aria-hidden="true"></i><span>正在载入清晰图片…</span>';
  lightboxStage.append(imageLoading);
  const imageLoadError = document.createElement('div');
  imageLoadError.className = 'image-load-error';
  imageLoadError.hidden = true;
  imageLoadError.innerHTML = '<strong>图片加载失败</strong><button type="button">重新加载</button>';
  lightboxStage.append(imageLoadError);
  const heartParticles = document.createElement('div');
  heartParticles.className = 'heart-particles';
  heartParticles.setAttribute('aria-hidden', 'true');
  lightbox.append(heartParticles);
  for (let index = 0; index < 12; index++) {
    const particle = document.createElement('span');
    particle.hidden = true;
    particle.innerHTML = '<svg viewBox="0 0 24 24"><path d="M20.8 4.6a5.5 5.5 0 0 0-7.8 0L12 5.7l-1.1-1.1a5.5 5.5 0 0 0-7.8 7.8l1.1 1.1L12 21l7.7-7.5 1.1-1.1a5.5 5.5 0 0 0 0-7.8Z"></path></svg>';
    heartParticles.append(particle);
  }
  const lightboxPosition = lightbox.querySelector('#lightbox-position');
  const lightboxFilmstrip = lightbox.querySelector('#lightbox-filmstrip');
  const lightboxCaption = lightbox.querySelector('.lightbox-name');
  const favouriteToggle = lightbox.querySelector('#favourite-toggle');
  const favouriteBurst = lightbox.querySelector('#favourite-burst');
  const favouriteError = lightbox.querySelector('#favourite-error');
  const deletionToggle = lightbox.querySelector('#deletion-toggle');
  const deletionMarkError = lightbox.querySelector('#deletion-mark-error');
  const previewPrevious = lightbox.querySelector('#preview-previous');
  const previewNext = lightbox.querySelector('#preview-next');
  const carouselToggle = lightbox.querySelector('#carousel-toggle');
  const lightboxClose = lightbox.querySelector('.lightbox-close');
  const carouselHud = document.createElement('div');
  carouselHud.className = 'carousel-hud';
  carouselHud.innerHTML = '<span class="carousel-notice" hidden></span><button type="button" data-carousel-pause>暂停</button><button type="button" data-carousel-exit>退出轮播</button>';
  lightbox.append(carouselHud);
  const viewerControls = lightbox.querySelector('.lightbox-controls');
"#;

pub const DIRECTORY_JS_8: &'static str = r#"  const svgIcon = paths => `<svg viewBox="0 0 24 24" aria-hidden="true">${paths}</svg>`;
  const strokePath = path => `<path d="${path}"></path>`;
  const commentToggle = document.createElement('button');
  commentToggle.type = 'button';
  commentToggle.className = 'comment-toggle';
  commentToggle.title = '图片评论 (c)';
  commentToggle.setAttribute('aria-label', commentToggle.title);
  commentToggle.setAttribute('aria-expanded', 'false');
  commentToggle.innerHTML = `${svgIcon(strokePath('M6.5 5.5h11a2 2 0 0 1 2 2v7a2 2 0 0 1-2 2H11l-4.5 3v-3a2 2 0 0 1-2-2v-7a2 2 0 0 1 2-2Z') + strokePath('M8 9.5h8M8 12.5h5'))}<b hidden>0</b>`;
  viewerControls.insertBefore(commentToggle, deletionToggle);
  const moreToggle = document.createElement('button');
  moreToggle.type = 'button';
  moreToggle.className = 'viewer-more-toggle';
  moreToggle.title = '更多工具';
  moreToggle.setAttribute('aria-label', moreToggle.title);
  moreToggle.setAttribute('aria-expanded', 'false');
  moreToggle.innerHTML = svgIcon(strokePath('m7 9.5 5 5 5-5'));
  viewerControls.append(moreToggle);
  const viewerExtras = document.createElement('div');
  viewerExtras.className = 'viewer-extras';
  viewerExtras.hidden = true;
  viewerControls.after(viewerExtras);
  const viewerTools = document.createElement('span');
  viewerTools.className = 'viewer-tools';
  viewerTools.innerHTML = `<button type="button" data-zoom="out" aria-label="缩小">${svgIcon(strokePath('M6 12h12'))}</button><button type="button" data-view="fit" aria-label="适应窗口">适屏</button><button type="button" data-view="fill" aria-label="填满窗口">填满</button><button type="button" data-view="actual" aria-label="原始尺寸">1:1</button><button type="button" data-zoom="in" aria-label="放大">${svgIcon(strokePath('M12 6v12M6 12h12'))}</button><button type="button" data-info aria-expanded="false" aria-label="图片信息">${svgIcon(strokePath('M12 11v5M12 8h.01') + '<circle cx="12" cy="12" r="9"></circle>')}</button>`;
  const shortcutHelpToggle = document.createElement('button');
  shortcutHelpToggle.type = 'button';
  shortcutHelpToggle.className = 'shortcut-help-toggle';
  shortcutHelpToggle.innerHTML = svgIcon(strokePath('M9.7 9a2.5 2.5 0 1 1 3.9 2.1c-1 .7-1.6 1.2-1.6 2.4M12 17h.01') + '<circle cx="12" cy="12" r="9"></circle>');
  shortcutHelpToggle.title = '查看快捷键';
  shortcutHelpToggle.setAttribute('aria-label', shortcutHelpToggle.title);
  viewerExtras.append(viewerTools, shortcutHelpToggle);
  const imageInfo = document.createElement('aside');
  imageInfo.className = 'image-info';
  imageInfo.hidden = true;
  const shortcutHelp = document.createElement('aside');
  shortcutHelp.className = 'shortcut-help';
  shortcutHelp.hidden = true;
  shortcutHelp.innerHTML = '<span>← / J 上一张 · → / K 下一张</span><span>F 点赞 · C 评论 · 粘贴文本追加评论 · D 标记删除 · Ctrl K 直接删除</span><span>P 轮播 · 空格暂停</span><span>Esc 退出</span>';
  const figure = lightbox.querySelector('figure');
  figure.append(imageInfo, shortcutHelp);
  previewPrevious.innerHTML = svgIcon(strokePath('m15 6-6 6 6 6'));
  previewNext.innerHTML = svgIcon(strokePath('m9 6 6 6-6 6'));
  favouriteToggle.innerHTML = svgIcon(strokePath('M12 20.2 4.8 13a4.7 4.7 0 0 1 6.7-6.6l.5.5.5-.5a4.7 4.7 0 0 1 6.7 6.6L12 20.2Z') + strokePath('m17.2 4.2.45-1.3.45 1.3 1.3.45-1.3.45-.45 1.3-.45-1.3-1.3-.45 1.3-.45Z'));
"#;

pub const DIRECTORY_JS_9: &'static str = r#"  deletionToggle.innerHTML = svgIcon(strokePath('m7 7 10 10M17 7 7 17'));
  carouselToggle.innerHTML = svgIcon('<path class="icon-fill" d="m9 7 8 5-8 5Z"></path>' + strokePath('M5 5v14'));
  lightboxClose.innerHTML = svgIcon(strokePath('m6 6 12 12M18 6 6 18'));
  const lightboxState = document.createElement('div');
  lightboxState.className = 'lightbox-state';
  lightboxState.setAttribute('role', 'status');
  lightboxState.innerHTML = `<span class="lightbox-favourite-state">${svgIcon('<path d="M12 21c-.45 0-.85-.18-1.2-.5l-6.7-6.2C1.35 11.75 1.2 7.75 3.7 5.2 6.05 2.8 10 2.85 12 5.45c2-2.6 5.95-2.65 8.3-.25 2.5 2.55 2.35 6.55-.4 9.1l-6.7 6.2c-.35.32-.75.5-1.2.5Z"></path>')}</span><span class="lightbox-deletion-state" hidden>待删除</span>`;
  lightboxStage.append(lightboxState);
  const commentsDrawer = document.createElement('aside');
  commentsDrawer.className = 'gallery-comments';
  commentsDrawer.hidden = true;
  commentsDrawer.setAttribute('aria-label', '图片评论');
  commentsDrawer.innerHTML = '<header><div><span>IMAGE NOTES</span><strong>图片评论</strong></div><button type="button" data-comments-close aria-label="关闭评论区"></button></header><div class="gallery-comments-image"><img alt=""><div><strong></strong><span></span></div><button type="button" data-comment-delete-all hidden>删除所有评论</button></div><div class="gallery-comment-list" role="feed"></div><div class="gallery-comment-empty"><strong>还没有评论</strong><span>记录构图、色彩或需要 AI 调整的细节。</span></div><form class="gallery-comment-composer"><div class="gallery-comment-identity" hidden><span>评论人 <strong></strong></span><button type="button" data-comment-change-author>更换</button></div><label data-comment-author>评论人<input name="author" autocomplete="name" placeholder="你的名字" required></label><label>评论内容<textarea name="body" rows="4" placeholder="例如：压低背景高光，让人物更突出…" required></textarea></label><p class="gallery-comment-hint">Enter 提交 · ⌘ Enter 换行</p><p class="gallery-comment-error" role="status" hidden></p><div><button type="button" data-comment-cancel hidden>取消编辑</button><button type="submit" class="comment-submit">添加评论</button></div></form><footer><a target="_blank">打开共享评论文件</a><span>gallery-comments.json</span></footer>';
  commentsDrawer.querySelector('[data-comments-close]').innerHTML = svgIcon(strokePath('m7 7 10 10M17 7 7 17'));
  lightbox.append(commentsDrawer);
  const galleryToast = document.createElement('div');
  galleryToast.className = 'gallery-toast';
  galleryToast.setAttribute('role', 'status');
  galleryToast.hidden = true;
  lightbox.append(galleryToast);
  const deleteDialog = document.querySelector('#delete-dialog');
  const deleteName = deleteDialog.querySelector('#delete-name');
  const deleteError = deleteDialog.querySelector('#delete-error');
  const deleteCancel = deleteDialog.querySelector('#delete-cancel');
  const deleteConfirm = deleteDialog.querySelector('#delete-confirm');
  const deletionCount = document.querySelector('#deletion-count');
  const deletionFilterLabel = document.querySelector('#deletion-filter-label');
  const deleteMarkedButton = document.querySelector('#delete-marked-images');
  const clearDeletionMarksButton = document.querySelector('#clear-deletion-marks');
  const deleteMarkedDialog = document.querySelector('#delete-marked-dialog');
"#;

pub const DIRECTORY_JS_10: &'static str = r#"  const deleteMarkedError = deleteMarkedDialog.querySelector('#delete-marked-error');
  const deleteMarkedCancel = deleteMarkedDialog.querySelector('#delete-marked-cancel');
  const deleteMarkedConfirm = deleteMarkedDialog.querySelector('#delete-marked-confirm');
  const mobileTouch = matchMedia('(hover: none) and (pointer: coarse)');
  const reducedMotion = matchMedia('(prefers-reduced-motion: reduce)');
  const REVIEW_IDENTITY_KEY = 'webdir-review-identity';
  const imageModel = () => Array.from(listing.querySelectorAll('.entry.image[data-preview-src]'));
  const visibleImages = () => imageModel().filter(entry => !entry.hidden);
  let previewTrigger = null;
  let deleting = false;
  let liking = 0;
  let marking = 0;
  let moving = false;
  let lastImageTap = null;
  let adjacentPreloads = [];
  let carouselTimer = null;
  let previewRequest = 0;
  let loadingTimer = null;
  let chromeTimer = null;
  let mouseInChromeZone = false;
  let carouselPaused = false;
  let carouselQueue = [];
  let lastCarouselEffect = null;
  let zoom = {scale: 1, x: 0, y: 0, mode: 'fit', originalLoaded: false};
  let pointerGesture = null;
  let galleryComments = {version: 1, instructions: [], comments: []};
  let galleryCommentsLoaded = false;
  let galleryCommentsLoading = false;
  let editingCommentId = null;
  let deleteAllCommentsTimer = null;
  const pendingFavourites = new WeakSet();
  const pendingDeletionMarks = new WeakSet();
  const galleryCommentList = commentsDrawer.querySelector('.gallery-comment-list');
  const galleryCommentEmpty = commentsDrawer.querySelector('.gallery-comment-empty');
  const galleryCommentComposer = commentsDrawer.querySelector('.gallery-comment-composer');
  const galleryCommentAuthor = galleryCommentComposer.elements.author;
  const galleryCommentAuthorLabel = galleryCommentComposer.querySelector('[data-comment-author]');
  const galleryCommentIdentity = galleryCommentComposer.querySelector('.gallery-comment-identity');
  const galleryCommentBody = galleryCommentComposer.elements.body;
  const galleryCommentError = commentsDrawer.querySelector('.gallery-comment-error');
  const galleryCommentSubmit = commentsDrawer.querySelector('.comment-submit');
  const galleryCommentCancel = commentsDrawer.querySelector('[data-comment-cancel]');
  const galleryCommentDeleteAll = commentsDrawer.querySelector('[data-comment-delete-all]');
  const commentCount = commentToggle.querySelector('b');
  const showGalleryToast = message => {
    galleryToast.textContent = message;
    galleryToast.hidden = false;
    clearTimeout(showGalleryToast.timer);
    showGalleryToast.timer = setTimeout(() => { galleryToast.hidden = true; }, 2200);
  };
  const scrollToLatestGalleryComment = (smooth = true) => requestAnimationFrame(() => {
    galleryCommentList.scrollTo({
      top: galleryCommentList.scrollHeight,
      behavior: smooth && !reducedMotion.matches ? 'smooth' : 'auto'
    });
  });
  const syncGalleryCommentIdentity = () => {
    const author = localStorage.getItem(REVIEW_IDENTITY_KEY)?.trim() || '';
    galleryCommentAuthor.value = author;
    galleryCommentAuthorLabel.hidden = Boolean(author);
    galleryCommentIdentity.hidden = !author;
    galleryCommentIdentity.querySelector('strong').textContent = author;
  };
  syncGalleryCommentIdentity();

  const updateLightboxState = () => {
    const liked = previewTrigger?.dataset.favourite === 'true';
    const marked = previewTrigger?.dataset.deletionMarked === 'true';
"#;

pub const DIRECTORY_JS_11: &'static str = r#"    lightboxState.querySelector('.lightbox-favourite-state').classList.toggle('liked', liked);
    lightboxState.querySelector('.lightbox-deletion-state').hidden = !marked;
    lightboxState.setAttribute('aria-label', `${liked ? '已点赞' : '未点赞'}${marked ? '，待删除' : ''}`);
  };

  const updateFavouriteButton = () => {
    const liked = previewTrigger?.dataset.favourite === 'true';
    favouriteToggle.setAttribute('aria-pressed', String(liked));
    favouriteToggle.title = liked ? '取消点赞 (f)' : '点赞 (f)';
    favouriteToggle.setAttribute('aria-label', favouriteToggle.title);
    favouriteToggle.disabled = previewTrigger ? pendingFavourites.has(previewTrigger) : false;
    updateLightboxState();
  };

  const markedEntries = () => Array.from(
    listing.querySelectorAll('.entry.image[data-deletion-marked="true"]')
  );

  const updateDeletionControls = () => {
    const marked = previewTrigger?.dataset.deletionMarked === 'true';
    deletionToggle.setAttribute('aria-pressed', String(marked));
    deletionToggle.title = marked ? '取消标记 (d)' : '标记删除 (d)';
    deletionToggle.setAttribute('aria-label', deletionToggle.title);
    deletionToggle.disabled = previewTrigger ? pendingDeletionMarks.has(previewTrigger) : false;
    const count = markedEntries().length;
    deletionCount.textContent = String(count);
    deleteMarkedButton.disabled = count === 0 || moving;
    clearDeletionMarksButton.disabled = count === 0 || moving;
    updateLightboxState();
  };

  const updatePreviewButtons = () => {
    const entries = visibleImages();
    const index = entries.indexOf(previewTrigger);
    previewPrevious.disabled = index <= 0;
    previewNext.disabled = index < 0 || index >= entries.length - 1;
    carouselToggle.disabled = entries.length < 2;
    lightboxPosition.textContent = index < 0 ? '' : `${index + 1} / ${entries.length}`;
    const name = previewTrigger?.querySelector('.entry-name').textContent || '';
    lightboxPosition.setAttribute('aria-label', index < 0 ? '' : `${name}，第 ${index + 1} 张，共 ${entries.length} 张`);
  };

  const currentImageName = () => previewTrigger?.querySelector('.entry-name').textContent || '';
  const commentsEndpoint = () => `${previewTrigger.dataset.listHref}?mode=gallery-comments`;
  const formatCommentTime = value => {
    const time = new Date(value);
    return Number.isNaN(time.getTime()) ? value : time.toLocaleString('zh-CN', {dateStyle: 'medium', timeStyle: 'short'});
  };
  const resetCommentComposer = () => {
    editingCommentId = null;
    galleryCommentBody.value = '';
    galleryCommentCancel.hidden = true;
    galleryCommentSubmit.textContent = '添加评论';
    galleryCommentError.hidden = true;
  };
  const renderGalleryComments = () => {
    if (!previewTrigger) return;
    const name = currentImageName();
    const comments = galleryComments.comments.filter(comment => comment.image === name);
    commentCount.textContent = String(comments.length);
    commentCount.hidden = comments.length === 0;
    commentsDrawer.querySelector('.gallery-comments-image img').src = currentThumbnailSource(previewTrigger);
    commentsDrawer.querySelector('.gallery-comments-image strong').textContent = name;
    commentsDrawer.querySelector('.gallery-comments-image span').textContent = `${comments.length} 条评论`;
    galleryCommentDeleteAll.hidden = comments.length === 0;
    galleryCommentDeleteAll.dataset.confirm = 'false';
"#;

pub const DIRECTORY_JS_12: &'static str = r#"    galleryCommentDeleteAll.textContent = '删除所有评论';
    commentsDrawer.querySelector('footer a').href = new URL('gallery-comments.json', location.href).href;
    galleryCommentList.replaceChildren();
    comments.forEach(comment => {
      const article = document.createElement('article');
      article.dataset.commentId = comment.id;
      const header = document.createElement('header');
      const author = document.createElement('strong');
      author.textContent = comment.author;
      const time = document.createElement('time');
      time.dateTime = comment.edited_at || comment.created_at;
      time.textContent = `${formatCommentTime(time.dateTime)}${comment.edited_at ? ' · 已编辑' : ''}`;
      header.append(author, time);
      const body = document.createElement('p');
      body.textContent = comment.body;
      const actions = document.createElement('div');
      actions.innerHTML = '<button type="button" data-comment-edit>编辑</button><button type="button" data-comment-delete>删除</button>';
      article.append(header, body, actions);
      galleryCommentList.append(article);
    });
    galleryCommentEmpty.hidden = comments.length !== 0 || galleryCommentsLoading;
  };
  const loadGalleryComments = async () => {
    if (!previewTrigger || galleryCommentsLoading || galleryCommentsLoaded) return;
    galleryCommentsLoading = true;
    galleryCommentEmpty.hidden = true;
    commentsDrawer.classList.add('loading');
    try {
      const response = await fetch(commentsEndpoint());
      if (!response.ok) throw new Error('评论加载失败，请重试。');
      galleryComments = await response.json();
      galleryCommentsLoaded = true;
      renderGalleryComments();
    } catch (error) {
      galleryCommentError.textContent = error.message;
      galleryCommentError.hidden = false;
    } finally {
      galleryCommentsLoading = false;
      commentsDrawer.classList.remove('loading');
      renderGalleryComments();
    }
  };
  const closeGalleryComments = () => {
    commentsDrawer.hidden = true;
    commentToggle.setAttribute('aria-expanded', 'false');
    resetCommentComposer();
    showChrome();
  };
  const openGalleryComments = () => {
    if (!previewTrigger) return;
    syncGalleryCommentIdentity();
    commentsDrawer.hidden = false;
    commentToggle.setAttribute('aria-expanded', 'true');
    renderGalleryComments();
    loadGalleryComments().then(() => {
      if (!commentsDrawer.hidden) scrollToLatestGalleryComment(false);
    });
    showChrome();
    const input = galleryCommentAuthorLabel.hidden ? galleryCommentBody : galleryCommentAuthor;
    input.focus({preventScroll: true});
  };
  const toggleGalleryComments = () => commentsDrawer.hidden ? openGalleryComments() : closeGalleryComments();
  const submitGalleryCommentAction = async action => {
    galleryCommentSubmit.disabled = true;
    galleryCommentDeleteAll.disabled = true;
    galleryCommentError.hidden = true;
    try {
      const response = await fetch(commentsEndpoint(), {
        method: 'POST',
        headers: {'Content-Type': 'application/json'},
        body: JSON.stringify(action)
      });
      if (!response.ok) throw new Error((await response.text()).trim() || '保存评论失败，请重试。');
      galleryComments = await response.json();
      galleryCommentsLoaded = true;
      resetCommentComposer();
      renderGalleryComments();
      if (action.type === 'add') scrollToLatestGalleryComment();
"#;

pub const DIRECTORY_JS_13: &'static str = r#"    } catch (error) {
      galleryCommentError.textContent = error.message;
      galleryCommentError.hidden = false;
    } finally {
      galleryCommentSubmit.disabled = false;
      galleryCommentDeleteAll.disabled = false;
    }
  };

  const appendPastedGalleryComment = async body => {
    const author = localStorage.getItem(REVIEW_IDENTITY_KEY)?.trim() || '';
    if (!author) {
      showGalleryToast('请先打开评论区设置评论人');
      return;
    }
    const entry = previewTrigger;
    try {
      const response = await fetch(commentsEndpoint(), {
        method: 'POST',
        headers: {'Content-Type': 'application/json'},
        body: JSON.stringify({
          type: 'add',
          comment: {
            id: crypto.randomUUID ? crypto.randomUUID() : `${Date.now()}-${Math.random().toString(16).slice(2)}`,
            image: currentImageName(),
            author,
            body,
            created_at: new Date().toISOString()
          }
        })
      });
      if (!response.ok) throw new Error((await response.text()).trim() || '追加评论失败，请重试。');
      if (previewTrigger === entry) {
        galleryComments = await response.json();
        galleryCommentsLoaded = true;
        renderGalleryComments();
      }
      showGalleryToast('已追加评论');
    } catch (error) {
      showGalleryToast(error.message);
    }
  };

  const renderFilmstrip = () => {
    const entries = visibleImages();
    const currentIndex = entries.indexOf(previewTrigger);
    lightboxFilmstrip.replaceChildren();
    for (let offset = -3; offset <= 3; offset++) {
      const slot = document.createElement('span');
      slot.className = 'filmstrip-slot';
      slot.dataset.distance = String(Math.abs(offset));
      const entry = entries[currentIndex + offset];
      if (entry) {
        const button = document.createElement('button');
        button.className = 'filmstrip-thumb';
        button.type = 'button';
        button.setAttribute('aria-current', String(offset === 0));
        const name = entry.querySelector('.entry-name').textContent;
        button.setAttribute('aria-label', offset === 0 ? `当前图片：${name}` : `查看 ${name}`);
        const image = document.createElement('img');
        const listingImage = entry.querySelector('.glyph img');
        image.src = listingImage?.dataset.gallerySrc || listingImage?.dataset.listSrc || entry.dataset.previewSrc;
        image.alt = '';
        image.decoding = 'async';
        button.append(image);
        button.addEventListener('click', () => switchPreview(entry, Math.sign(offset)));
        slot.append(button);
      }
      lightboxFilmstrip.append(slot);
    }
  };

  const preloadAdjacentImages = () => {
    const entries = visibleImages();
    const index = entries.indexOf(previewTrigger);
    adjacentPreloads = [entries[index - 1], entries[index + 1]]
      .filter(Boolean)
      .map(entry => {
        const image = new Image();
        image.src = entry.dataset.previewSrc;
        return image;
      });
  };

  const currentThumbnailSource = entry => {
    const image = entry?.querySelector('.glyph img');
    return image?.dataset.gallerySrc || image?.dataset.listSrc || entry?.dataset.previewSrc || '';
  };

  const updateImageInfo = () => {
    if (!previewTrigger) return;
    const name = previewTrigger.querySelector('.entry-name').textContent;
    const extension = name.includes('.') ? name.split('.').pop().toUpperCase() : 'IMAGE';
"#;

pub const DIRECTORY_JS_14: &'static str = r#"    const dimensions = lightboxImage.naturalWidth
      ? `${lightboxImage.naturalWidth} × ${lightboxImage.naturalHeight}`
      : '尺寸读取中';
    imageInfo.innerHTML = `<span>${extension}</span><span>${previewTrigger.dataset.fileSize}</span><span>${dimensions}</span><span>${Math.round(zoom.scale * 100)}%</span><a href="${previewTrigger.dataset.originalSrc}" target="_blank">打开原图</a>`;
  };

  const applyZoom = () => {
    lightboxImage.style.transform = `translate3d(calc(${zoom.x}px + var(--gesture-x,0px)),calc(${zoom.y}px + var(--gesture-y,0px)),0) scale(${zoom.scale})`;
    lightboxImage.classList.toggle('zoomed', zoom.scale > 1.01);
    updateImageInfo();
    updateLightboxStatePosition();
  };

  const loadOriginal = async () => {
    if (!previewTrigger) return false;
    if (zoom.originalLoaded || lightboxImage.src === new URL(previewTrigger.dataset.originalSrc, location.href).href) return true;
    const entry = previewTrigger;
    const request = ++previewRequest;
    const original = new Image();
    original.src = entry.dataset.originalSrc;
    try {
      await original.decode();
      if (previewTrigger !== entry || request !== previewRequest) return;
      lightboxImage.src = original.src;
      zoom.originalLoaded = true;
      updateImageInfo();
      return true;
    } catch (_) {
      return false;
    }
  };

  const setZoom = (scale, origin = null) => {
    const previous = zoom.scale;
    zoom.scale = Math.min(8, Math.max(1, scale));
    zoom.mode = zoom.scale === 1 ? 'fit' : 'custom';
    if (origin && previous > 0) {
      const rect = lightboxStage.getBoundingClientRect();
      const ox = origin.x - rect.left - rect.width / 2;
      const oy = origin.y - rect.top - rect.height / 2;
      const ratio = zoom.scale / previous;
      zoom.x = ox - (ox - zoom.x) * ratio;
      zoom.y = oy - (oy - zoom.y) * ratio;
    }
    if (zoom.scale === 1) zoom.x = zoom.y = 0;
    if (zoom.scale > 1.15) loadOriginal();
    applyZoom();
  };

  const fittedImageSize = () => {
    const stage = lightboxStage.getBoundingClientRect();
    const width = lightboxImage.naturalWidth;
    const height = lightboxImage.naturalHeight;
    if (!width || !height) return {width: stage.width, height: stage.height};
    const scale = Math.min(1, stage.width / width, stage.height / height);
    return {width: width * scale, height: height * scale};
  };

  const updateLightboxStatePosition = () => {
    const stage = lightboxStage.getBoundingClientRect();
    const fitted = fittedImageSize();
    const inset = 12;
    lightboxState.style.right = `${Math.max(inset, (stage.width - fitted.width * zoom.scale) / 2 - zoom.x + inset)}px`;
    lightboxState.style.bottom = `${Math.max(inset, (stage.height - fitted.height * zoom.scale) / 2 - zoom.y + inset)}px`;
  };
  addEventListener('resize', updateLightboxStatePosition);

  const setViewMode = async mode => {
    if (!previewTrigger) return;
    if (mode === 'fit') {
      zoom = {scale: 1, x: 0, y: 0, mode: 'fit', originalLoaded: zoom.originalLoaded};
      return applyZoom();
    }
    if (mode === 'actual') {
      if (!await loadOriginal()) return;
      const fitted = fittedImageSize();
      const scale = fitted.width
        ? Math.min(8, Math.max(1, lightboxImage.naturalWidth / fitted.width))
        : 1;
      zoom = {scale, x: 0, y: 0, mode: 'actual', originalLoaded: zoom.originalLoaded};
      return applyZoom();
    }
    const stage = lightboxStage.getBoundingClientRect();
"#;

pub const DIRECTORY_JS_15: &'static str = r#"    const fitted = fittedImageSize();
    if (!fitted.width || !fitted.height) return;
    const scale = Math.min(8, Math.max(stage.width / fitted.width, stage.height / fitted.height));
    zoom = {scale, x: 0, y: 0, mode: 'fill', originalLoaded: zoom.originalLoaded};
    applyZoom();
  };

  viewerTools.addEventListener('click', event => {
    const button = event.target.closest('button');
    if (!button) return;
    if (button.dataset.zoom === 'in') setZoom(zoom.scale * 1.25);
    else if (button.dataset.zoom === 'out') setZoom(zoom.scale / 1.25);
    else if (button.dataset.view) setViewMode(button.dataset.view);
    else if (button.hasAttribute('data-info')) {
      imageInfo.hidden = !imageInfo.hidden;
      button.setAttribute('aria-expanded', String(!imageInfo.hidden));
      updateImageInfo();
    }
  });
  shortcutHelpToggle.addEventListener('click', () => {
    shortcutHelp.hidden = !shortcutHelp.hidden;
    shortcutHelpToggle.setAttribute('aria-expanded', String(!shortcutHelp.hidden));
  });
  moreToggle.addEventListener('click', () => {
    viewerExtras.hidden = !viewerExtras.hidden;
    moreToggle.setAttribute('aria-expanded', String(!viewerExtras.hidden));
    moreToggle.classList.toggle('open', !viewerExtras.hidden);
    showChrome();
  });
  commentToggle.addEventListener('click', toggleGalleryComments);
  commentsDrawer.querySelector('[data-comments-close]').addEventListener('click', closeGalleryComments);
  galleryCommentCancel.addEventListener('click', resetCommentComposer);
  galleryCommentAuthor.addEventListener('change', () => {
    const author = galleryCommentAuthor.value.trim();
    if (author) localStorage.setItem(REVIEW_IDENTITY_KEY, author);
    syncGalleryCommentIdentity();
  });
  galleryCommentComposer.querySelector('[data-comment-change-author]').addEventListener('click', () => {
    galleryCommentIdentity.hidden = true;
    galleryCommentAuthorLabel.hidden = false;
    galleryCommentAuthor.focus();
    galleryCommentAuthor.select();
  });
  galleryCommentComposer.addEventListener('submit', event => {
    event.preventDefault();
    const author = galleryCommentAuthor.value.trim();
    const body = galleryCommentBody.value.trim();
    if (!author || !body || !previewTrigger) return;
    localStorage.setItem(REVIEW_IDENTITY_KEY, author);
    syncGalleryCommentIdentity();
    if (editingCommentId) {
      submitGalleryCommentAction({
        type: 'edit',
        comment_id: editingCommentId,
        body,
        edited_at: new Date().toISOString()
      });
      return;
    }
    submitGalleryCommentAction({
      type: 'add',
      comment: {
        id: crypto.randomUUID ? crypto.randomUUID() : `${Date.now()}-${Math.random().toString(16).slice(2)}`,
        image: currentImageName(),
        author,
        body,
        created_at: new Date().toISOString()
      }
    });
  });
  galleryCommentList.addEventListener('click', event => {
    const article = event.target.closest('article[data-comment-id]');
    if (!article) return;
    const comment = galleryComments.comments.find(item => item.id === article.dataset.commentId);
    if (!comment) return;
    if (event.target.closest('[data-comment-edit]')) {
      editingCommentId = comment.id;
      galleryCommentBody.value = comment.body;
      galleryCommentCancel.hidden = false;
      galleryCommentSubmit.textContent = '保存修改';
      galleryCommentBody.focus();
      return;
    }
"#;

pub const DIRECTORY_JS_16: &'static str = r#"    const deleteButton = event.target.closest('[data-comment-delete]');
    if (!deleteButton) return;
    if (deleteButton.dataset.confirm !== 'true') {
      deleteButton.dataset.confirm = 'true';
      deleteButton.textContent = '确认删除';
      setTimeout(() => {
        if (!deleteButton.isConnected) return;
        deleteButton.dataset.confirm = 'false';
        deleteButton.textContent = '删除';
      }, 2400);
      return;
    }
    submitGalleryCommentAction({type: 'delete', comment_id: comment.id});
  });
  galleryCommentDeleteAll.addEventListener('click', () => {
    if (galleryCommentDeleteAll.dataset.confirm !== 'true') {
      galleryCommentDeleteAll.dataset.confirm = 'true';
      galleryCommentDeleteAll.textContent = '确认全部删除';
      clearTimeout(deleteAllCommentsTimer);
      deleteAllCommentsTimer = setTimeout(() => {
        galleryCommentDeleteAll.dataset.confirm = 'false';
        galleryCommentDeleteAll.textContent = '删除所有评论';
      }, 2400);
      return;
    }
    clearTimeout(deleteAllCommentsTimer);
    submitGalleryCommentAction({type: 'delete-all'});
  });

  const canAutoHideChrome = () => imageInfo.hidden && shortcutHelp.hidden
    && commentsDrawer.hidden && viewerExtras.hidden && !mouseInChromeZone;
  const showChrome = (hold = false) => {
    lightbox.classList.remove('chrome-hidden');
    clearTimeout(chromeTimer);
    if (!hold && canAutoHideChrome()) {
      chromeTimer = setTimeout(() => lightbox.classList.add('chrome-hidden'), 2500);
    }
  };

  const animateFavouriteFeedback = (liked, origin = null) => {
    favouriteToggle.getAnimations().forEach(animation => animation.cancel());
    favouriteToggle.animate(reducedMotion.matches
      ? [{opacity: .65}, {opacity: 1}]
      : [
          {transform: 'translateY(0) scale(1)'},
          {transform: `translateY(${liked ? -6 : 2}px) scale(${liked ? 1.2 : .9})`, offset: .38},
          {transform: 'translateY(0) scale(1)'}
        ], {duration: reducedMotion.matches ? 160 : 420, easing: 'cubic-bezier(.16,1,.3,1)'});
    if (reducedMotion.matches) return;
    const particleRect = lightbox.getBoundingClientRect();
    const buttonRect = favouriteToggle.getBoundingClientRect();
    const startX = (origin?.x ?? (buttonRect.left + buttonRect.width / 2)) - particleRect.left;
    const startY = (origin?.y ?? (buttonRect.top + buttonRect.height / 2)) - particleRect.top;
    const count = liked ? 9 : 3;
    Array.from(heartParticles.children).forEach((particle, index) => {
      particle.getAnimations().forEach(animation => animation.cancel());
      particle.hidden = index >= count;
      if (particle.hidden) return;
      particle.style.left = `${startX}px`;
      particle.style.top = `${startY}px`;
      particle.classList.toggle('outline', !liked);
      const spread = liked ? 54 + (index % 3) * 18 : 20;
      const angle = liked ? (-150 + index * 18) * Math.PI / 180 : (-110 + index * 20) * Math.PI / 180;
      const x = Math.cos(angle) * spread;
      const y = Math.sin(angle) * spread - (liked ? 34 + (index % 2) * 18 : 4);
      const rotate = -28 + index * 11;
      const scale = liked ? .68 + (index % 4) * .13 : .7;
      const animation = particle.animate([
        {transform: 'translate3d(-50%,-50%,0) scale(.25) rotate(0)', opacity: 0},
        {transform: `translate3d(calc(-50% + ${x * .35}px),calc(-50% + ${y * .25}px),0) scale(${scale * 1.18}) rotate(${rotate * .4}deg)`, opacity: 1, offset: .28},
"#;

pub const DIRECTORY_JS_17: &'static str = r#"        {transform: `translate3d(calc(-50% + ${x}px),calc(-50% + ${y}px),0) scale(${scale}) rotate(${rotate}deg)`, opacity: 0}
      ], {duration: liked ? 570 + index * 34 : 360, delay: liked ? index * 24 : index * 35, easing: 'cubic-bezier(.16,1,.3,1)'});
      animation.finished.catch(() => {}).finally(() => { particle.hidden = true; });
    });
  };

  const toggleFavourite = async origin => {
    if (!previewTrigger || lightbox.hidden || deleting || moving || deleteDialog.open) return;
    const entry = previewTrigger;
    if (pendingFavourites.has(entry)) return;
    const liked = entry.dataset.favourite !== 'true';
    liking++;
    pendingFavourites.add(entry);
    favouriteError.hidden = true;
    entry.dataset.favourite = String(liked);
    entry.querySelector('.favourite-mark').hidden = !liked;
    updateFavouriteButton();
    animateFavouriteFeedback(liked, origin);
    try {
      const response = await fetch(`${entry.dataset.listHref}?mode=favourite`, {method: liked ? 'PUT' : 'DELETE'});
      if (!response.ok) throw new Error('保存点赞状态失败，请重试。');
    } catch (error) {
      entry.dataset.favourite = String(!liked);
      entry.querySelector('.favourite-mark').hidden = liked;
      if (previewTrigger === entry) {
        favouriteError.textContent = error.message;
        favouriteError.hidden = false;
      }
    } finally {
      liking--;
      pendingFavourites.delete(entry);
      updateFavouriteButton();
    }
  };
  favouriteToggle.addEventListener('click', toggleFavourite);

  const toggleDeletionMark = async () => {
    if (!previewTrigger || lightbox.hidden || deleting || moving || deleteDialog.open) return;
    const entry = previewTrigger;
    if (pendingDeletionMarks.has(entry)) return;
    const marked = entry.dataset.deletionMarked !== 'true';
    marking++;
    pendingDeletionMarks.add(entry);
    deletionMarkError.hidden = true;
    entry.dataset.deletionMarked = String(marked);
    entry.querySelector('.deletion-mark').hidden = !marked;
    updateDeletionControls();
    try {
      const response = await fetch(`${entry.dataset.listHref}?mode=deletion-mark`, {method: marked ? 'PUT' : 'DELETE'});
      if (!response.ok) throw new Error('保存待删除标记失败，请重试。');
    } catch (error) {
      entry.dataset.deletionMarked = String(!marked);
      entry.querySelector('.deletion-mark').hidden = marked;
      if (previewTrigger === entry) {
        deletionMarkError.textContent = error.message;
        deletionMarkError.hidden = false;
      }
    } finally {
      marking--;
      pendingDeletionMarks.delete(entry);
      updateDeletionControls();
    }
  };
  deletionToggle.addEventListener('click', toggleDeletionMark);
  previewPrevious.addEventListener('click', () => stepPreview(-1));
  previewNext.addEventListener('click', () => stepPreview(1));

  const moveDialog = document.createElement('dialog');
  moveDialog.className = 'delete-dialog move-dialog';
  moveDialog.innerHTML = '<h2>整理这些图片？</h2><p class="move-description"></p><div class="delete-actions"><button type="button" data-move-cancel autofocus>取消</button><button type="button" data-move-confirm>确认移动</button></div>';
  document.body.append(moveDialog);
  const moveFavouriteImages = async () => {
    if (moving || liking || marking || deleting) return;
    moving = true;
    moveFavouriteButton.disabled = true;
    directoryNotice.textContent = '正在移入 favourites/…';
"#;

pub const DIRECTORY_JS_18: &'static str = r#"    directoryNotice.hidden = false;
    try {
      const url = new URL(location.href);
      url.search = '?mode=move-favourites';
      const response = await fetch(url, {method: 'POST'});
      if (!response.ok) throw new Error(await response.text());
      const result = await response.json();
      let notice = `已将 ${result.moved} 张图片移入 favourites/`;
      if (result.errors.length) notice += `；未完成的操作：${result.errors.join('；')}`;
      history.replaceState({...history.state, moveNotice: notice, previewImage: null}, '');
      location.reload();
    } catch (error) {
      directoryNotice.textContent = error.message || '整理图片失败，请重试。';
      moving = false;
      moveFavouriteButton.disabled = false;
    }
  };
  moveFavouriteButton.addEventListener('click', () => {
    if (moving) return;
    const count = imageModel().filter(entry => entry.dataset.favourite === 'true').length;
    if (count === 0) {
      directoryNotice.textContent = '没有图片需要移动';
      directoryNotice.hidden = false;
      return;
    }
    moveDialog.querySelector('.move-description').textContent = `将 ${count} 张已点赞图片移入 favourites/。同名文件会自动重命名。`;
    moveDialog.showModal();
  });
  moveDialog.querySelector('[data-move-cancel]').addEventListener('click', () => moveDialog.close());
  moveDialog.querySelector('[data-move-confirm]').addEventListener('click', () => {
    moveDialog.close();
    moveFavouriteImages();
  });

  deletionFilter.addEventListener('click', () => {
    const enabled = deletionFilter.getAttribute('aria-pressed') !== 'true';
    deletionFilter.setAttribute('aria-pressed', String(enabled));
    deletionFilterLabel.textContent = enabled ? '查看全部图片' : '查看待删除列表';
    moveFavouriteButton.hidden = enabled;
    deleteMarkedButton.hidden = !enabled;
    clearDeletionMarksButton.hidden = !enabled;
    filterDirectory();
    scheduleThumbnails();
  });

  deleteMarkedButton.addEventListener('click', () => {
    if (moving || markedEntries().length === 0) return;
    deleteMarkedError.hidden = true;
    deleteMarkedDialog.showModal();
  });
  deleteMarkedCancel.addEventListener('click', () => deleteMarkedDialog.close());
  deleteMarkedDialog.addEventListener('cancel', event => {
    if (moving) event.preventDefault();
  });
  clearDeletionMarksButton.addEventListener('click', async () => {
    if (moving || markedEntries().length === 0) return;
    moving = true;
    clearDeletionMarksButton.textContent = '正在取消…';
    moveFavouriteButton.disabled = true;
    updateDeletionControls();
    try {
      const url = new URL(location.href);
      url.search = '?mode=clear-deletion-marks';
      const response = await fetch(url, {method: 'POST'});
      if (!response.ok) throw new Error(await response.text());
      const result = await response.json();
      let notice = `已取消 ${result.cleared} 张图片的删除标记`;
      if (result.errors.length) notice += `；未完成的操作：${result.errors.join('；')}`;
      history.replaceState({...history.state, moveNotice: notice, previewImage: null}, '');
      location.reload();
    } catch (error) {
      moving = false;
      clearDeletionMarksButton.textContent = '取消所有删除标记';
      moveFavouriteButton.disabled = false;
      directoryNotice.textContent = error.message || '取消删除标记失败，请重试。';
"#;

pub const DIRECTORY_JS_19: &'static str = r#"      directoryNotice.hidden = false;
      updateDeletionControls();
    }
  });
  deleteMarkedConfirm.addEventListener('click', async () => {
    if (moving) return;
    moving = true;
    deleteMarkedConfirm.disabled = deleteMarkedCancel.disabled = true;
    deleteMarkedConfirm.textContent = '正在删除…';
    deleteMarkedError.hidden = true;
    updateDeletionControls();
    try {
      const url = new URL(location.href);
      url.search = '?mode=delete-marked';
      const response = await fetch(url, {method: 'POST'});
      if (!response.ok) throw new Error(await response.text());
      const result = await response.json();
      let notice = `已删除 ${result.deleted} 张标记图片`;
      if (result.errors.length) notice += `；未完成的操作：${result.errors.join('；')}`;
      history.replaceState({...history.state, moveNotice: notice, previewImage: null}, '');
      location.reload();
    } catch (error) {
      moving = false;
      deleteMarkedConfirm.disabled = deleteMarkedCancel.disabled = false;
      deleteMarkedConfirm.textContent = '全部删除';
      deleteMarkedError.textContent = error.message || '删除已标记图片失败，请重试。';
      deleteMarkedError.hidden = false;
      updateDeletionControls();
    }
  });

  const visibleThumbnails = new Set();
  const loadingThumbnails = new Set();
  const loadedSources = new WeakMap();
  let thumbnailFrame = null;

  const scheduleThumbnails = () => {
    if (thumbnailFrame !== null) return;
    thumbnailFrame = requestAnimationFrame(loadVisibleThumbnails);
  };

  const thumbnailObserver = new IntersectionObserver(entries => {
    entries.forEach(({target, isIntersecting}) => {
      if (isIntersecting) visibleThumbnails.add(target);
      else visibleThumbnails.delete(target);
    });
    scheduleThumbnails();
  }, {rootMargin: '100% 0px'});

  function loadVisibleThumbnails() {
    thumbnailFrame = null;
    const gallery = listing.classList.contains('gallery');
    const candidates = [];
    visibleThumbnails.forEach(image => {
      if (!image.isConnected) {
        visibleThumbnails.delete(image);
        thumbnailObserver.unobserve(image);
        return;
      }
      const source = gallery ? image.dataset.gallerySrc : image.dataset.listSrc;
      if (!source || loadingThumbnails.has(image) || loadedSources.get(image) === source) return;
      const rect = image.getBoundingClientRect();
      if (rect.bottom <= -innerHeight || rect.top >= innerHeight * 2 || rect.right <= 0 || rect.left >= innerWidth) return;
      candidates.push({image, source, distance: Math.abs((rect.top + rect.bottom) / 2 - innerHeight / 2)});
    });
    candidates.sort((left, right) => left.distance - right.distance);
    for (const {image, source} of candidates) {
      if (loadingThumbnails.size >= 4) break;
      loadingThumbnails.add(image);
      const complete = event => {
        image.removeEventListener('load', complete);
        image.removeEventListener('error', complete);
        loadingThumbnails.delete(image);
        if (event.type === 'load') loadedSources.set(image, source);
        else {
          visibleThumbnails.delete(image);
          thumbnailObserver.unobserve(image);
        }
        scheduleThumbnails();
      };
      image.addEventListener('load', complete);
      image.addEventListener('error', complete);
      image.src = source;
    }
  }

  thumbnails.forEach(image => thumbnailObserver.observe(image));

"#;

pub const DIRECTORY_JS_20: &'static str = r#"  const carouselEffects = ['drift', 'lift', 'depth', 'soft-focus', 'curtain'];

  const clearCarouselTimer = () => {
    clearTimeout(carouselTimer);
    carouselTimer = null;
  };

  const scheduleCarousel = () => {
    clearCarouselTimer();
    if (!lightbox.classList.contains('carousel-mode') || carouselPaused || lightbox.hidden || document.hidden || deleteDialog.open) return;
    const entries = visibleImages();
    carouselQueue = carouselQueue.filter(entry => entries.includes(entry) && entry !== previewTrigger);
    if (!carouselQueue.length) carouselQueue = shuffle(entries.filter(entry => entry !== previewTrigger));
    if (carouselQueue[0]) {
      const next = new Image();
      next.src = carouselQueue[0].dataset.previewSrc;
      adjacentPreloads.push(next);
    }
    carouselTimer = setTimeout(advanceCarousel, 5000);
  };

  const shuffle = values => {
    for (let index = values.length - 1; index > 0; index--) {
      const next = Math.floor(Math.random() * (index + 1));
      [values[index], values[next]] = [values[next], values[index]];
    }
    return values;
  };

  const advanceCarousel = () => {
    const entries = visibleImages();
    if (entries.length < 2) return scheduleCarousel();
    const currentIndex = entries.indexOf(previewTrigger);
    carouselQueue = carouselQueue.filter(entry => entries.includes(entry) && entry !== previewTrigger);
    if (!carouselQueue.length) carouselQueue = shuffle(entries.filter(entry => entry !== previewTrigger));
    const nextEntry = carouselQueue.shift();
    const nextIndex = entries.indexOf(nextEntry);
    const choices = carouselEffects.filter(effect => effect !== lastCarouselEffect);
    const effect = choices[Math.floor(Math.random() * choices.length)];
    lastCarouselEffect = effect;
    switchPreview(nextEntry, nextIndex > currentIndex ? 1 : -1, effect);
  };

  const showDeleteDialog = () => {
    if (!previewTrigger || deleting || deleteDialog.open) return;
    clearCarouselTimer();
    deleteName.textContent = previewTrigger.querySelector('.entry-name').textContent;
    deleteError.hidden = true;
    deleteDialog.showModal();
  };

  const stepPreview = (direction, gestureOffset = null) => {
    const entries = visibleImages();
    const nextEntry = entries[entries.indexOf(previewTrigger) + direction];
    if (!nextEntry) return false;
    switchPreview(nextEntry, direction, null, gestureOffset);
    return true;
  };

  const fullscreenElement = () => document.fullscreenElement || document.webkitFullscreenElement;
  const enterFullscreen = element => {
    const request = element.requestFullscreen || element.webkitRequestFullscreen;
    return request ? Promise.resolve(request.call(element)) : Promise.reject(new Error('Fullscreen is unavailable'));
  };
  const exitFullscreen = () => {
    const exit = document.exitFullscreen || document.webkitExitFullscreen;
    return exit ? Promise.resolve(exit.call(document)) : Promise.resolve();
  };

  const setGallery = (enabled, updateUrl = true) => {
    listing.classList.toggle('gallery', enabled);
    document.body.classList.toggle('gallery-mode', enabled);
    galleryToggle.setAttribute('aria-pressed', String(enabled));
    galleryToggle.innerHTML = enabled
      ? '<span aria-hidden="true">☷</span> 列表'
      : '<span aria-hidden="true">▦</span> Gallery';
    scheduleThumbnails();
    listing.querySelectorAll('.entry.image[data-gallery-href]').forEach(entry => {
"#;

pub const DIRECTORY_JS_21: &'static str = r#"      entry.setAttribute('href', enabled ? entry.dataset.galleryHref : entry.dataset.listHref);
    });
    if (updateUrl) {
      const url = new URL(location.href);
      if (enabled) url.searchParams.set('view', 'gallery');
      else url.searchParams.delete('view');
      history.replaceState(history.state, '', url);
    }
  };

  const setCarousel = async enabled => {
    if (enabled && (lightbox.hidden || carouselToggle.disabled)) return;
    if (enabled && !commentsDrawer.hidden) closeGalleryComments();
    lightbox.classList.toggle('carousel-mode', enabled);
    carouselToggle.setAttribute('aria-pressed', String(enabled));
    carouselToggle.title = enabled ? '退出轮播 (p)' : '进入轮播 (p)';
    carouselToggle.setAttribute('aria-label', carouselToggle.title);
    if (enabled) {
      carouselPaused = false;
      carouselQueue = [];
      document.activeElement?.blur();
      try {
        if (!fullscreenElement()) await enterFullscreen(lightbox);
      } catch (_) {
        const notice = carouselHud.querySelector('.carousel-notice');
        notice.textContent = '已使用网页全屏';
        notice.hidden = false;
        setTimeout(() => { notice.hidden = true; }, 2600);
      }
      showChrome();
      scheduleCarousel();
    } else {
      clearCarouselTimer();
      if (fullscreenElement() === lightbox) exitFullscreen().catch(() => {});
      showChrome();
    }
  };

  carouselToggle.addEventListener('click', () => setCarousel(true));
  carouselHud.addEventListener('click', event => {
    if (event.target.closest('[data-carousel-exit]')) setCarousel(false);
    const pause = event.target.closest('[data-carousel-pause]');
    if (pause) {
      carouselPaused = !carouselPaused;
      pause.textContent = carouselPaused ? '继续' : '暂停';
      if (carouselPaused) clearCarouselTimer(); else scheduleCarousel();
      showChrome();
    }
  });
  const handleFullscreenChange = () => {
    if (!fullscreenElement() && lightbox.classList.contains('carousel-mode')) {
      lightbox.classList.remove('carousel-mode');
      carouselToggle.setAttribute('aria-pressed', 'false');
      carouselToggle.title = '进入轮播 (p)';
      carouselToggle.setAttribute('aria-label', carouselToggle.title);
      carouselPaused = false;
      clearCarouselTimer();
    }
  };
  document.addEventListener('fullscreenchange', handleFullscreenChange);
  document.addEventListener('webkitfullscreenchange', handleFullscreenChange);

  const closeLightbox = () => {
    if (lightbox.hidden || deleting) return;
    if (history.state?.galleryPreview) {
      history.back();
      return;
    }
    clearTimeout(chromeTimer);
    mouseInChromeZone = false;
    setCarousel(false);
    if (deleteDialog.open) deleteDialog.close();
    lightboxStage.getAnimations({subtree: true}).forEach(animation => animation.cancel());
    lightboxStage.querySelectorAll('.preview-outgoing,.backdrop-outgoing').forEach(layer => layer.remove());
    lightbox.hidden = true;
    commentsDrawer.hidden = true;
    commentToggle.setAttribute('aria-expanded', 'false');
    viewerExtras.hidden = true;
    moreToggle.setAttribute('aria-expanded', 'false');
    moreToggle.classList.remove('open');
    previewRequest++;
    clearTimeout(loadingTimer);
    clearTimeout(chromeTimer);
    lightboxImage.removeAttribute('src');
    lightboxPlaceholder.removeAttribute('src');
    lightboxBackdrop.style.backgroundImage = '';
    adjacentPreloads = [];
"#;

pub const DIRECTORY_JS_22: &'static str = r#"    document.body.classList.remove('lightbox-open');
    document.querySelector('main').inert = false;
    scrollJumps.inert = false;
    (previewTrigger || galleryToggle).focus({preventScroll: mobileTouch.matches});
    previewTrigger = null;
    history.replaceState({...history.state, previewImage: null}, '');
    filterDirectory();
  };

  const animatePreview = (outgoing, outgoingBackdrop, direction, effect, gestureOffset = null, gestureIncoming = null) => {
    lightboxStage.getAnimations({subtree: true}).forEach(animation => animation.cancel());
    lightboxStage.querySelectorAll('.preview-outgoing').forEach(image => {
      if (image !== outgoing) image.remove();
    });
    lightboxStage.querySelectorAll('.backdrop-outgoing').forEach(layer => {
      if (layer !== outgoingBackdrop) layer.remove();
    });
    const vertical = mobileTouch.matches;
    const translate = amount => vertical
      ? `translate3d(0, ${amount}%, 0)`
      : `translate3d(${amount}%, 0, 0)`;
    let outgoingFrames;
    let incomingFrames;
    if (gestureOffset !== null) {
      const axisSize = vertical ? lightboxStage.clientHeight : lightboxStage.clientWidth;
      const translatePixels = amount => vertical
        ? `translate3d(0,${amount}px,0)`
        : `translate3d(${amount}px,0,0)`;
      outgoingFrames = [
        {transform: translatePixels(gestureOffset), opacity: 1},
        {transform: translatePixels(-direction * axisSize), opacity: 1}
      ];
      incomingFrames = [
        {transform: translatePixels(direction * axisSize + gestureOffset), opacity: 1},
        {transform: translatePixels(0), opacity: 1}
      ];
    } else if (reducedMotion.matches) {
      outgoingFrames = [{opacity: 1}, {opacity: 0}];
      incomingFrames = [{opacity: 0}, {opacity: 1}];
    } else if (effect === 'drift') {
      outgoingFrames = [
        {transform: 'translate3d(0,0,0) scale(1)', opacity: 1},
        {transform: `translate3d(${-direction * 9}%,0,0) scale(1.025)`, opacity: 0}
      ];
      incomingFrames = [
        {transform: `translate3d(${direction * 11}%,0,0) scale(.975)`, opacity: 0},
        {transform: 'translate3d(0,0,0) scale(1)', opacity: 1}
      ];
    } else if (effect === 'lift') {
      outgoingFrames = [
        {transform: 'translate3d(0,0,0) scale(1)', opacity: 1},
        {transform: `translate3d(0,${-direction * 10}%,0) scale(.98)`, opacity: 0}
      ];
      incomingFrames = [
        {transform: `translate3d(0,${direction * 13}%,0) scale(1.02)`, opacity: 0},
        {transform: 'translate3d(0,0,0) scale(1)', opacity: 1}
      ];
    } else if (effect === 'depth') {
      outgoingFrames = [
        {transform: 'translate3d(0,0,0) scale(1)', opacity: 1},
        {transform: 'translate3d(0,0,0) scale(1.075)', opacity: 0}
      ];
      incomingFrames = [
        {transform: 'translate3d(0,0,0) scale(.92)', opacity: 0},
        {transform: 'translate3d(0,0,0) scale(1)', opacity: 1}
      ];
    } else if (effect === 'soft-focus') {
      outgoingFrames = [
        {transform: 'translate3d(0,0,0) scale(1)', opacity: 1},
        {transform: `translate3d(${direction * -3}%,0,0) scale(1.035)`, opacity: 0}
      ];
      incomingFrames = [
        {transform: `translate3d(${direction * 3}%,0,0) scale(1.035)`, opacity: 0},
        {transform: 'translate3d(0,0,0) scale(1)', opacity: 1}
      ];
    } else if (effect === 'curtain') {
      outgoingFrames = [
        {transform: 'translate3d(0,0,0) scaleX(1)', opacity: 1},
"#;

pub const DIRECTORY_JS_23: &'static str = r#"        {transform: `translate3d(${direction * -7}%,0,0) scaleX(.94)`, opacity: 0}
      ];
      incomingFrames = [
        {transform: `translate3d(${direction * 7}%,0,0) scaleX(.94)`, opacity: 0},
        {transform: 'translate3d(0,0,0) scaleX(1)', opacity: 1}
      ];
    } else {
      outgoingFrames = [
        {transform: translate(0), opacity: 1},
        {transform: translate(-direction * 12), opacity: 0}
      ];
      incomingFrames = [
        {transform: translate(direction * 12), opacity: 0},
        {transform: translate(0), opacity: 1}
      ];
    }
    const carouselTransition = Boolean(effect) && !reducedMotion.matches;
    const gestureTransition = gestureOffset !== null;
    const outgoingAnimation = outgoing.animate(outgoingFrames, {
      duration: gestureTransition ? 230 : reducedMotion.matches ? 130 : carouselTransition ? 720 : 280,
      easing: gestureTransition ? 'cubic-bezier(.22,.75,.28,1)' : 'cubic-bezier(.4,0,1,1)'
    });
    const incomingTarget = gestureIncoming || lightboxImage;
    const incomingAnimation = incomingTarget.animate(incomingFrames, {
      duration: gestureTransition ? 230 : reducedMotion.matches ? 130 : carouselTransition ? 980 : 280,
      easing: 'cubic-bezier(.16,1,.3,1)'
    });
    outgoingAnimation.finished.catch(() => {}).finally(() => outgoing.remove());
    if (gestureIncoming) incomingAnimation.finished.catch(() => {}).finally(() => gestureIncoming.remove());
    if (outgoingBackdrop) {
      const backdropDuration = reducedMotion.matches ? 150 : effect ? 1050 : 320;
      const backdropOptions = {duration: backdropDuration, easing: 'cubic-bezier(.16,1,.3,1)'};
      const outgoingBackdropAnimation = outgoingBackdrop.animate(reducedMotion.matches
        ? [{opacity: .66}, {opacity: 0}]
        : [
            {transform: 'scale(1.08)', opacity: .66},
            {transform: 'scale(1.14)', opacity: 0}
          ], backdropOptions);
      lightboxBackdrop.animate(reducedMotion.matches
        ? [{opacity: 0}, {opacity: .66}]
        : [
            {transform: 'scale(1.14)', opacity: 0},
            {transform: 'scale(1.08)', opacity: .66}
          ], backdropOptions);
      outgoingBackdropAnimation.finished.catch(() => {}).finally(() => outgoingBackdrop.remove());
    }
  };

  const loadPreviewImage = async entry => {
    const request = ++previewRequest;
    clearTimeout(loadingTimer);
    imageLoading.hidden = true;
    imageLoadError.hidden = true;
    lightboxImage.classList.add('loading');
    const load = async source => {
      const pending = new Image();
      pending.src = source;
      await pending.decode();
      return pending;
    };
    loadingTimer = setTimeout(() => {
      if (previewTrigger === entry && request === previewRequest) imageLoading.hidden = false;
    }, 180);
    try {
      let loaded;
      try {
        loaded = await load(entry.dataset.previewSrc);
      } catch (error) {
        if (entry.dataset.previewSrc === entry.dataset.originalSrc) throw error;
        loaded = await load(entry.dataset.originalSrc);
      }
      if (previewTrigger !== entry || request !== previewRequest || lightbox.hidden) return;
      lightboxImage.src = loaded.src;
      lightboxImage.classList.remove('loading');
      lightboxPlaceholder.classList.add('loaded');
      imageLoading.hidden = true;
      zoom.originalLoaded = loaded.src === new URL(entry.dataset.originalSrc, location.href).href;
      updateImageInfo();
      updateLightboxStatePosition();
"#;

pub const DIRECTORY_JS_24: &'static str = r#"    } catch (_) {
      if (previewTrigger !== entry || request !== previewRequest) return;
      imageLoading.hidden = true;
      imageLoadError.hidden = false;
    } finally {
      clearTimeout(loadingTimer);
    }
  };

  imageLoadError.querySelector('button').addEventListener('click', () => {
    if (previewTrigger) loadPreviewImage(previewTrigger);
  });

  const showPreview = (entry, direction = 0, effect = null, gestureOffset = null) => {
    lastImageTap = null;
    let outgoing = null;
    let outgoingBackdrop = null;
    let gestureIncoming = null;
    if (!lightbox.hidden && direction) {
      if (gestureOffset !== null) {
        gestureIncoming = lightboxStage.querySelector(`.gesture-neighbour[data-direction="${direction}"]`);
      }
      outgoing = lightboxImage.cloneNode();
      outgoing.classList.add('preview-outgoing');
      outgoing.setAttribute('aria-hidden', 'true');
      lightboxStage.append(outgoing);
      if (lightbox.classList.contains('carousel-mode')) {
        outgoingBackdrop = lightboxBackdrop.cloneNode();
        outgoingBackdrop.classList.add('backdrop-outgoing');
        lightboxStage.append(outgoingBackdrop);
      }
    }
    if (gestureOffset !== null) clearGestureLayers(gestureIncoming);
    const opening = lightbox.hidden;
    if (opening && mobileTouch.matches && !history.state?.galleryPreview) {
      const state = {...history.state, previewImage: null, scrollX, scrollY};
      history.replaceState(state, '');
      history.pushState({...state, galleryPreview: true}, '');
    }
    previewTrigger = entry;
    lightbox.dataset.filePath = entry.dataset.filePath;
    const name = entry.querySelector('.entry-name').textContent;
    const thumbnailSource = currentThumbnailSource(entry);
    lightboxPlaceholder.src = thumbnailSource;
    lightboxPlaceholder.classList.remove('loaded');
    lightboxBackdrop.style.backgroundImage = `url(${JSON.stringify(thumbnailSource)})`;
    lightboxImage.alt = name;
    lightboxCaption.textContent = name;
    zoom = {scale: 1, x: 0, y: 0, mode: 'fit', originalLoaded: false};
    applyZoom();
    loadPreviewImage(entry);
    favouriteError.hidden = true;
    deletionMarkError.hidden = true;
    updateFavouriteButton();
    updateDeletionControls();
    resetCommentComposer();
    renderGalleryComments();
    loadGalleryComments();
    lightbox.hidden = false;
    document.body.classList.add('lightbox-open');
    document.querySelector('main').inert = true;
    scrollJumps.inert = true;
    if (opening) {
      clearTimeout(chromeTimer);
      mouseInChromeZone = false;
      lightbox.classList.add('chrome-hidden');
      lightboxClose.focus({preventScroll: true});
    }
    history.replaceState({...history.state, previewImage: entry.dataset.listHref}, '');
    updatePreviewButtons();
    renderFilmstrip();
    preloadAdjacentImages();
    if (outgoing) animatePreview(outgoing, outgoingBackdrop, direction, effect, gestureOffset, gestureIncoming);
  };

  const openLightbox = entry => showPreview(entry);

  const switchPreview = (entry, direction, effect = null, gestureOffset = null) => {
    if (!entry || entry === previewTrigger || deleting || deleteDialog.open) return;
    if (effect && !lightbox.classList.contains('carousel-mode')) return;
    showPreview(entry, direction, effect, gestureOffset);
    scheduleCarousel();
  };

  const deleteImage = async () => {
"#;

pub const DIRECTORY_JS_25: &'static str = r#"    if (moving || marking || deleting || !previewTrigger || pendingFavourites.has(previewTrigger)) return;
    const entry = previewTrigger;
    deleting = true;
    deleteConfirm.disabled = deleteCancel.disabled = lightboxClose.disabled = true;
    deleteConfirm.textContent = '正在删除…';
    deleteError.hidden = true;
    try {
      const response = await fetch(entry.dataset.listHref, {method: 'DELETE'});
      if (!response.ok) throw new Error('删除失败，请检查文件是否存在且可写后重试。');
      const entries = visibleImages();
      const index = entries.indexOf(entry);
      const nextEntry = entries[index + 1] || entries[index - 1];
      if (deleteDialog.open) deleteDialog.close();
      entry.remove();
      filterDirectory();
      updateDeletionControls();
      deleting = false;
      if (nextEntry) openLightbox(nextEntry);
      else {
        previewTrigger = null;
        closeLightbox();
      }
    } catch (error) {
      if (!deleteDialog.open) showDeleteDialog();
      deleteError.textContent = error.message;
      deleteError.hidden = false;
    } finally {
      deleting = false;
      deleteConfirm.disabled = deleteCancel.disabled = lightboxClose.disabled = false;
      deleteConfirm.textContent = '删除图片';
      if (deleteDialog.open) deleteCancel.focus();
      else if (!lightbox.hidden) lightboxClose.focus();
    }
  };

  deleteConfirm.addEventListener('click', deleteImage);
  deleteCancel.addEventListener('click', () => deleteDialog.close());
  deleteDialog.addEventListener('cancel', event => {
    if (deleting) event.preventDefault();
  });
  deleteDialog.addEventListener('close', scheduleCarousel);

  listing.addEventListener('click', event => {
    const entry = event.target.closest('.entry.image[data-preview-src]');
    if (!listing.classList.contains('gallery') || !entry) return;
    if (!entry) return;
    event.preventDefault();
    openLightbox(entry);
  });

  lightboxClose.addEventListener('click', closeLightbox);
  lightbox.addEventListener('click', event => {
    const button = event.target.closest('button');
    if (button && button !== lightboxClose && !lightbox.hidden) showChrome();
  });
  const updateMouseChrome = event => {
    if (event.pointerType !== 'mouse' || lightbox.hidden) return;
    const controls = figure.querySelector('figcaption').getBoundingClientRect();
    const inChromeZone = event.clientY >= Math.max(0, controls.top - 48);
    if (inChromeZone) {
      mouseInChromeZone = true;
      showChrome(true);
    } else if (mouseInChromeZone) {
      mouseInChromeZone = false;
      showChrome();
    }
  };
  lightbox.addEventListener('pointermove', updateMouseChrome, {passive: true});
  lightbox.addEventListener('pointerleave', event => {
    if (event.pointerType !== 'mouse' || !mouseInChromeZone) return;
    mouseInChromeZone = false;
    showChrome();
  });
  const activePointers = new Map();
  const clearGestureLayers = (preserve = null) => {
    lightboxStage.querySelectorAll('.gesture-neighbour').forEach(image => {
      if (image !== preserve) image.remove();
    });
    lightboxImage.style.removeProperty('--gesture-x');
    lightboxImage.style.removeProperty('--gesture-y');
    lightboxPlaceholder.style.removeProperty('--gesture-x');
    lightboxPlaceholder.style.removeProperty('--gesture-y');
  };
  const gestureNeighbour = direction => {
    const entries = visibleImages();
"#;

pub const DIRECTORY_JS_26: &'static str = r#"    const entry = entries[entries.indexOf(previewTrigger) + direction];
    if (!entry) return null;
    let image = lightboxStage.querySelector(`.gesture-neighbour[data-direction="${direction}"]`);
    if (!image) {
      image = document.createElement('img');
      image.className = 'gesture-neighbour';
      image.dataset.direction = direction;
      image.src = currentThumbnailSource(entry);
      image.alt = '';
      image.draggable = false;
      lightboxStage.append(image);
    }
    return image;
  };
  lightbox.addEventListener('pointerdown', event => {
    if (deleting || deleteDialog.open || event.target.closest('button, dialog, a, input, textarea, .gallery-comments') || (event.pointerType === 'mouse' && event.button !== 0)) return;
    activePointers.set(event.pointerId, {x: event.clientX, y: event.clientY});
    lightbox.setPointerCapture?.(event.pointerId);
    if (activePointers.size === 2) {
      const points = Array.from(activePointers.values());
      pointerGesture = {pinch: true, distance: Math.hypot(points[1].x - points[0].x, points[1].y - points[0].y), scale: zoom.scale};
      return;
    }
    pointerGesture = {id: event.pointerId, x: event.clientX, y: event.clientY, lastX: event.clientX, lastY: event.clientY, time: performance.now(), velocity: 0, moved: false, imageTap: event.target === lightboxImage || event.target === lightboxPlaceholder};
  });
  lightbox.addEventListener('pointermove', event => {
    if (!activePointers.has(event.pointerId) || !pointerGesture) return;
    activePointers.set(event.pointerId, {x: event.clientX, y: event.clientY});
    if (activePointers.size >= 2 && pointerGesture.pinch) {
      const points = Array.from(activePointers.values());
      const distance = Math.hypot(points[1].x - points[0].x, points[1].y - points[0].y);
      setZoom(pointerGesture.scale * distance / Math.max(1, pointerGesture.distance));
      event.preventDefault();
      return;
    }
    if (event.pointerId !== pointerGesture.id) return;
    const now = performance.now();
    const dx = event.clientX - pointerGesture.x;
    const dy = event.clientY - pointerGesture.y;
    const delta = mobileTouch.matches ? dy : dx;
    const stepX = event.clientX - pointerGesture.lastX;
    const stepY = event.clientY - pointerGesture.lastY;
    pointerGesture.velocity = (mobileTouch.matches ? stepY : stepX) / Math.max(1, now - pointerGesture.time);
    pointerGesture.lastX = event.clientX;
    pointerGesture.lastY = event.clientY;
    pointerGesture.time = now;
    pointerGesture.moved ||= Math.hypot(dx, dy) > 8;
    if (zoom.scale > 1.01) {
      zoom.x += stepX;
      zoom.y += stepY;
      applyZoom();
    } else if (Math.abs(delta) > Math.abs(mobileTouch.matches ? dx : dy)) {
      const direction = delta < 0 ? 1 : -1;
      const neighbour = gestureNeighbour(direction);
      const resisted = neighbour ? delta : delta * .28;
      const axisSize = mobileTouch.matches ? lightboxStage.clientHeight : lightboxStage.clientWidth;
      const x = mobileTouch.matches ? 0 : resisted;
      const y = mobileTouch.matches ? resisted : 0;
      lightboxImage.style.setProperty('--gesture-x', `${x}px`);
      lightboxImage.style.setProperty('--gesture-y', `${y}px`);
      lightboxPlaceholder.style.setProperty('--gesture-x', `${x}px`);
      lightboxPlaceholder.style.setProperty('--gesture-y', `${y}px`);
      if (neighbour) {
        const origin = direction * axisSize + resisted;
"#;

pub const DIRECTORY_JS_27: &'static str = r#"        neighbour.style.transform = mobileTouch.matches ? `translate3d(0,${origin}px,0)` : `translate3d(${origin}px,0,0)`;
      }
    }
    event.preventDefault();
  });
  const finishPointer = event => {
    if (!activePointers.has(event.pointerId)) return;
    activePointers.delete(event.pointerId);
    if (!pointerGesture || pointerGesture.pinch) {
      if (activePointers.size === 0) pointerGesture = null;
      return;
    }
    const gesture = pointerGesture;
    pointerGesture = null;
    const dx = event.clientX - gesture.x;
    const dy = event.clientY - gesture.y;
    const delta = mobileTouch.matches ? dy : dx;
    const threshold = (mobileTouch.matches ? lightboxStage.clientHeight : lightboxStage.clientWidth) * .22;
    if (zoom.scale <= 1.01 && (Math.abs(delta) >= threshold || Math.abs(gesture.velocity) >= .55)) {
      lastImageTap = null;
      if (stepPreview(delta < 0 ? 1 : -1, delta)) return;
    }
    clearGestureLayers();
    applyZoom();
    if (gesture.moved) return;
    showChrome();
    if (!gesture.imageTap) {
      lastImageTap = null;
      return;
    }
    const now = performance.now();
    const doubleTap = lastImageTap && now - lastImageTap.time < 320
      && Math.hypot(event.clientX - lastImageTap.x, event.clientY - lastImageTap.y) < 36;
    if (doubleTap && mobileTouch.matches) {
      clearTimeout(lastImageTap.timer);
      lastImageTap = null;
      toggleFavourite({x: event.clientX, y: event.clientY});
    } else if (doubleTap) {
      clearTimeout(lastImageTap.timer);
      lastImageTap = null;
      setViewMode(zoom.scale > 1.01 ? 'fit' : 'actual');
    } else if (mobileTouch.matches) {
      const tap = {time: now, x: event.clientX, y: event.clientY};
      tap.timer = setTimeout(() => {
        if (lastImageTap !== tap) return;
        lastImageTap = null;
      }, 320);
      lastImageTap = tap;
    } else {
      lastImageTap = null;
    }
  };
  lightbox.addEventListener('pointerup', finishPointer);
  lightbox.addEventListener('pointercancel', event => {
    activePointers.delete(event.pointerId);
    pointerGesture = null;
    clearGestureLayers();
    applyZoom();
  });
  lightboxStage.addEventListener('wheel', event => {
    if (lightbox.hidden) return;
    event.preventDefault();
    setZoom(zoom.scale * Math.exp(-event.deltaY * .0015), {x: event.clientX, y: event.clientY});
    showChrome();
  }, {passive: false});
  document.addEventListener('paste', event => {
    if (lightbox.hidden || deleting || deleteDialog.open || event.defaultPrevented) return;
    if (event.target.closest?.('input, textarea, select') || event.target.isContentEditable) return;
    const body = event.clipboardData?.getData('text/plain').trim() || '';
    if (!body) return;
    event.preventDefault();
    appendPastedGalleryComment(body);
  });
  document.addEventListener('keydown', event => {
    if (deleting || deleteDialog.open) return;
    const commentEditorActive = !commentsDrawer.hidden
      && (event.target === galleryCommentAuthor || event.target === galleryCommentBody);
    if (commentEditorActive) {
      if (event.isComposing) return;
      if (event.key === 'Escape') {
        event.preventDefault();
        event.target.blur();
      } else if (event.target === galleryCommentAuthor && event.key === 'Enter') {
        event.preventDefault();
        galleryCommentBody.focus();
      } else if (event.target === galleryCommentBody && event.key === 'Enter') {
        event.preventDefault();
"#;

pub const DIRECTORY_JS_28: &'static str = r#"        if (event.metaKey) {
          galleryCommentBody.setRangeText('\n', galleryCommentBody.selectionStart, galleryCommentBody.selectionEnd, 'end');
        } else {
          galleryCommentComposer.requestSubmit();
        }
      }
      return;
    }
    if (event.key === 'Escape') {
      if (!commentsDrawer.hidden) closeGalleryComments();
      else if (!viewerExtras.hidden) {
        viewerExtras.hidden = true;
        moreToggle.setAttribute('aria-expanded', 'false');
        moreToggle.classList.remove('open');
      }
      else if (lightbox.classList.contains('carousel-mode')) setCarousel(false);
      else closeLightbox();
      return;
    }
    if (lightbox.hidden) return;
    if (event.key === 'Tab') {
      const focusable = Array.from(lightbox.querySelectorAll('button:not(:disabled),a[href]'))
        .filter(element => element.offsetParent !== null);
      if (!focusable.length) return;
      const index = focusable.indexOf(document.activeElement);
      const next = event.shiftKey
        ? focusable[(index <= 0 ? focusable.length : index) - 1]
        : focusable[(index + 1) % focusable.length];
      event.preventDefault();
      next.focus();
      return;
    }
    if (event.ctrlKey && !event.metaKey && !event.altKey && event.key.toLowerCase() === 'k') {
      event.preventDefault();
      if (!event.repeat) deleteImage();
      return;
    }
    if (event.ctrlKey || event.metaKey || event.altKey || event.isComposing) {
      return;
    }
    if (event.key.toLowerCase() === 'd') {
      event.preventDefault();
      if (event.repeat) return;
      toggleDeletionMark();
      return;
    }
    if (event.key === ' ' && lightbox.classList.contains('carousel-mode')) {
      event.preventDefault();
      carouselPaused = !carouselPaused;
      carouselHud.querySelector('[data-carousel-pause]').textContent = carouselPaused ? '继续' : '暂停';
      if (carouselPaused) clearCarouselTimer(); else scheduleCarousel();
      showChrome();
      return;
    }
    if (event.key === 'p') {
      if (event.repeat || event.target.closest('input, textarea, select') || event.target.isContentEditable) return;
      event.preventDefault();
      setCarousel(!lightbox.classList.contains('carousel-mode'));
      return;
    }
    if (event.key === 'f') {
      if (event.repeat || event.target.closest('input, textarea, select') || event.target.isContentEditable) return;
      event.preventDefault();
      toggleFavourite();
      return;
    }
    if (event.key.toLowerCase() === 'c') {
      if (event.repeat || event.target.closest('input, textarea, select') || event.target.isContentEditable) return;
      event.preventDefault();
      toggleGalleryComments();
      return;
    }
    let direction;
    if (event.key === 'ArrowUp' || event.key === 'ArrowLeft' || event.key === 'j') direction = -1;
    else if (event.key === 'ArrowDown' || event.key === 'ArrowRight' || event.key === 'k') direction = 1;
    else return;
    event.preventDefault();
    stepPreview(direction);
  });

  document.addEventListener('visibilitychange', () => {
    if (document.hidden) clearCarouselTimer();
    else scheduleCarousel();
  });

  galleryToggle.addEventListener('click', () => {
    if (deleting) return;
    const enabled = !listing.classList.contains('gallery');
    if (!enabled) closeLightbox();
    setGallery(enabled);
  });

  setGallery(new URLSearchParams(location.search).get('view') === 'gallery', false);
  updateDeletionControls();
"#;

pub const DIRECTORY_JS_29: &'static str = r#"  window.addEventListener('popstate', () => {
    if (!mobileTouch.matches) return;
    if (history.state?.galleryPreview) {
      const entry = visibleImages()
        .find(entry => entry.dataset.listHref === history.state.previewImage);
      if (entry) openLightbox(entry);
    } else {
      closeLightbox();
    }
  });
  if (listing.classList.contains('gallery') && history.state?.previewImage) {
    const entry = visibleImages()
      .find(entry => entry.dataset.listHref === history.state.previewImage);
    if (entry) openLightbox(entry);
  }
}

if (history.state?.scrollY !== undefined) {
  window.scrollTo(history.state.scrollX, history.state.scrollY);
}
"#;

pub const MARKDOWN_JS_1: &'static str = r#"
const reader = document.querySelector('#reader');
const editor = document.querySelector('#editor');
const source = document.querySelector('#source');
const preview = document.querySelector('#preview');
const status = document.querySelector('#save-status');
const presence = document.querySelector('#presence');
const connectionDot = document.querySelector('#connection-dot');
const article = document.querySelector('#article');
const reviewPanel = document.querySelector('#review-panel');
const commentList = document.querySelector('#comment-list');
const reviewError = document.querySelector('#review-error');
const reviewUsers = document.querySelector('#review-users');
const selectionComment = document.querySelector('#selection-comment');
const reviewComposer = document.querySelector('#review-composer');
const composerScope = document.querySelector('#composer-scope');
const commentBody = document.querySelector('#comment-body');
const identityDialog = document.querySelector('#identity-dialog');
const identityInput = document.querySelector('#identity-input');
const identityError = document.querySelector('#identity-error');
const identityButton = document.querySelector('#identity-button');
const overlayReviewLayout = matchMedia('(max-width:900px)');
const touchReviewDevice = matchMedia('(hover: none) and (pointer: coarse)');
const REVIEW_IDENTITY_KEY = 'webdir-review-identity';
commentBody.placeholder = 'Enter 提交 · ⌘ Enter 换行';
const LOCAL_ORIGIN = Symbol('local-input');
const REMOTE_ORIGIN = Symbol('remote-update');
let documentState = new Y.Doc();
let sharedText = documentState.getText('source');
let socket, reconnectTimer, previewTimer;
let roomId = null;
let reconnectDelay = 400;
let previewRevision = 0;
let scrollSyncLocked = false;
let sourceScrollMap;
let scrollMapFrame;
let scrollAnchors = [];
let previewResizeObserver;
let editing = false;
let synced = false;
let exitRequested = false;
let sequence = 0;
let latestGeneration = 0;
let savedGeneration = 0;
const pending = new Set();
let reviewDocument = {version: 1, comments: []};
let reviewFilter = 'open';
let reviewIdentity = '';
let reviewSocket;
let reviewReconnectTimer;
let reviewReconnectDelay = 500;
let pendingCommentScope = null;
let pendingSelectionLabel = '';
let selectedCommentId = null;
let pendingIdentityAction = null;

function setStatus(message, state = '') {
  status.textContent = message;
  connectionDot.className = state;
}
function refreshStatus() {
  if (!socket || socket.readyState !== WebSocket.OPEN) setStatus('连接已断开', 'error');
  else if (!synced || pending.size) setStatus('正在同步…');
  else if (savedGeneration < latestGeneration) setStatus('等待自动保存', 'connected');
  else setStatus('已保存', 'connected');
}
function scrollRatio(top, height, clientHeight) {
  const available = height - clientHeight;
  return available > 0 ? top / available : 0;
}
function withScrollLock(callback) {
  if (scrollSyncLocked) return;
  scrollSyncLocked = true;
  callback();
  requestAnimationFrame(() => { scrollSyncLocked = false; });
}
function documentHeight(doc) {
  return Math.max(doc.documentElement.scrollHeight, doc.body.scrollHeight);
}
function interpolateScroll(value, from, to) {
  if (scrollAnchors.length < 2) return null;
  const points = scrollAnchors.slice().sort((left, right) => left[from] - right[from]);
  if (value <= points[0][from]) return points[0][to];
  for (let index = 1; index < points.length; index += 1) {
"#;

pub const MARKDOWN_JS_2: &'static str = r#"    const previous = points[index - 1];
    const next = points[index];
    if (value > next[from]) continue;
    const distance = next[from] - previous[from];
    if (distance <= 0) return next[to];
    return previous[to] + (next[to] - previous[to]) * (value - previous[from]) / distance;
  }
  return points[points.length - 1][to];
}
function rebuildScrollMap() {
  const win = preview.contentWindow;
  const doc = preview.contentDocument;
  if (!win || !doc?.body || !source.clientWidth) return;
  const previewAnchors = Array.from(doc.querySelectorAll('.sync-anchor[data-source-offset]'));
  const offsets = [...new Set(previewAnchors.map(anchor => Number(anchor.dataset.sourceOffset)))]
    .filter(offset => Number.isFinite(offset) && offset >= 0 && offset <= source.value.length)
    .sort((left, right) => left - right);

  sourceScrollMap ||= document.body.appendChild(document.createElement('div'));
  sourceScrollMap.setAttribute('aria-hidden', 'true');
  const style = getComputedStyle(source);
  Object.assign(sourceScrollMap.style, {
    position: 'fixed', visibility: 'hidden', pointerEvents: 'none', left: '-100000px', top: '0',
    width: `${source.clientWidth}px`, height: 'auto', boxSizing: 'border-box', border: '0',
    padding: style.padding, font: style.font, lineHeight: style.lineHeight,
    letterSpacing: style.letterSpacing, whiteSpace: 'pre-wrap', overflowWrap: 'break-word',
    wordBreak: style.wordBreak, tabSize: style.tabSize
  });
  sourceScrollMap.replaceChildren();
  const sourceMarkers = new Map();
  let cursor = 0;
  offsets.forEach(offset => {
    sourceScrollMap.append(document.createTextNode(source.value.slice(cursor, offset)));
    const marker = document.createElement('i');
    marker.style.cssText = 'display:inline-block;width:0;height:0;overflow:hidden';
    sourceScrollMap.append(marker);
    sourceMarkers.set(offset, marker);
    cursor = offset;
  });
  sourceScrollMap.append(document.createTextNode(source.value.slice(cursor) + '\u200b'));
  const mirrorTop = sourceScrollMap.getBoundingClientRect().top;
  const uniqueAnchors = new Map();
  previewAnchors.forEach(anchor => {
    const offset = Number(anchor.dataset.sourceOffset);
    if (uniqueAnchors.has(offset) || !sourceMarkers.has(offset)) return;
    uniqueAnchors.set(offset, {
      source: sourceMarkers.get(offset).getBoundingClientRect().top - mirrorTop,
      preview: anchor.getBoundingClientRect().top + win.scrollY
    });
  });
  scrollAnchors = [
    {source: 0, preview: 0},
    ...uniqueAnchors.values(),
    {source: source.scrollHeight, preview: documentHeight(doc)}
  ];
}
function scheduleScrollMapRebuild(syncAfter = true) {
  cancelAnimationFrame(scrollMapFrame);
  scrollMapFrame = requestAnimationFrame(() => {
    rebuildScrollMap();
    if (syncAfter) syncPreviewFromSource();
  });
}
function syncPreviewFromSource() {
  const win = preview.contentWindow;
  const doc = preview.contentDocument;
  if (!win || !doc?.body) return;
  const sourceCenter = source.scrollTop + source.clientHeight / 2;
  const mappedCenter = interpolateScroll(sourceCenter, 'source', 'preview');
  const sourceMax = Math.max(0, source.scrollHeight - source.clientHeight);
  const previewMax = Math.max(0, documentHeight(doc) - win.innerHeight);
  const fallback = scrollRatio(source.scrollTop, source.scrollHeight, source.clientHeight) * previewMax;
  let target = mappedCenter === null ? fallback : mappedCenter - win.innerHeight / 2;
  if (source.scrollTop <= 0) target = 0;
"#;

pub const MARKDOWN_JS_3: &'static str = r#"  else if (source.scrollTop >= sourceMax - 1) target = previewMax;
  withScrollLock(() => win.scrollTo(0, target));
}
function syncSourceFromPreview() {
  const win = preview.contentWindow;
  const doc = preview.contentDocument;
  if (!win || !doc?.body) return;
  const previewCenter = win.scrollY + win.innerHeight / 2;
  const mappedCenter = interpolateScroll(previewCenter, 'preview', 'source');
  const ratio = scrollRatio(win.scrollY, documentHeight(doc), win.innerHeight);
  const fallback = ratio * Math.max(0, source.scrollHeight - source.clientHeight);
  const previewMax = Math.max(0, documentHeight(doc) - win.innerHeight);
  const sourceMax = Math.max(0, source.scrollHeight - source.clientHeight);
  let target = mappedCenter === null ? fallback : mappedCenter - source.clientHeight / 2;
  if (win.scrollY <= 0) target = 0;
  else if (win.scrollY >= previewMax - 1) target = sourceMax;
  withScrollLock(() => {
    source.scrollTop = target;
  });
}
function buildViewerTools() {
  const toc = document.querySelector('#toc');
  document.querySelectorAll('#article h2, #article h3').forEach((heading, index) => {
    heading.id = `section-${index + 1}`;
    const link = document.createElement('a');
    link.href = `#${heading.id}`;
    link.textContent = heading.textContent;
    link.dataset.level = heading.tagName.slice(1);
    toc.append(link);
  });
  document.querySelectorAll('#article pre').forEach((block) => {
    const button = document.createElement('button');
    button.type = 'button';
    button.className = 'copy-code';
    button.textContent = 'COPY';
    button.addEventListener('click', async () => {
      await navigator.clipboard.writeText(block.querySelector('code')?.textContent || '');
      button.textContent = 'COPIED';
      setTimeout(() => button.textContent = 'COPY', 1200);
    });
    block.append(button);
  });
}
async function updatePreview() {
  const revision = ++previewRevision;
  try {
    const response = await fetch(`${location.pathname}?mode=preview`, {
      method: 'POST', headers: {'Content-Type': 'text/plain; charset=utf-8'}, body: source.value
    });
    if (!response.ok) throw new Error(await response.text());
    const markup = await response.text();
    if (revision !== previewRevision) return;
    const currentArticle = preview.contentDocument?.querySelector('article');
    if (!currentArticle) {
      preview.srcdoc = markup;
      return;
    }
    const nextDocument = new DOMParser().parseFromString(markup, 'text/html');
    const nextArticle = nextDocument.querySelector('article');
    if (!nextArticle) throw new Error('预览内容无效');
    const previewDocument = currentArticle.ownerDocument;
    currentArticle.replaceChildren(
      ...Array.from(nextArticle.childNodes, node => previewDocument.importNode(node, true))
    );
    await preview.contentWindow.renderMarkdownMermaid();
    scheduleScrollMapRebuild();
  } catch (error) {
    if (revision !== previewRevision) return;
    setStatus(`预览失败：${error.message}`, 'error');
  }
}
function schedulePreview() {
  clearTimeout(previewTimer);
  previewTimer = setTimeout(updatePreview, 220);
}
function binaryFrame(kind, payload, updateSequence) {
  const header = updateSequence === undefined ? 1 : 5;
  const frame = new Uint8Array(header + payload.length);
  frame[0] = kind;
  if (updateSequence !== undefined) new DataView(frame.buffer).setUint32(1, updateSequence);
  frame.set(payload, header);
  return frame;
}
"#;

pub const MARKDOWN_JS_4: &'static str = r#"function sendUpdate(update) {
  if (!socket || socket.readyState !== WebSocket.OPEN) return;
  sequence = (sequence + 1) >>> 0;
  pending.add(sequence);
  socket.send(binaryFrame(1, update, sequence));
  refreshStatus();
}
function observeDocumentState() {
  documentState.on('update', (update, origin) => {
    if (origin !== REMOTE_ORIGIN) sendUpdate(update);
  });
}
function resetDocumentState() {
  documentState.destroy();
  documentState = new Y.Doc();
  sharedText = documentState.getText('source');
  pending.clear();
  latestGeneration = 0;
  savedGeneration = 0;
  observeDocumentState();
}
function restoreSelection(startPosition, endPosition) {
  const start = startPosition && Y.createAbsolutePositionFromRelativePosition(startPosition, documentState);
  const end = endPosition && Y.createAbsolutePositionFromRelativePosition(endPosition, documentState);
  const length = source.value.length;
  source.setSelectionRange(Math.min(start?.index ?? length, length), Math.min(end?.index ?? length, length));
}
function applyRemoteUpdate(update) {
  const selectable = !source.disabled;
  const start = selectable ? Y.createRelativePositionFromTypeIndex(sharedText, source.selectionStart, -1) : null;
  const end = selectable ? Y.createRelativePositionFromTypeIndex(sharedText, source.selectionEnd, 1) : null;
  Y.applyUpdate(documentState, update, REMOTE_ORIGIN);
  source.value = sharedText.toString();
  if (selectable) restoreSelection(start, end);
  schedulePreview();
}
function handleBinary(payload) {
  const frame = new Uint8Array(payload);
  if (frame[0] === 0) {
    sendUpdate(Y.encodeStateAsUpdate(documentState, frame.slice(1)));
  } else if (frame[0] === 1) {
    applyRemoteUpdate(frame.slice(1));
    synced = true;
    source.disabled = false;
    reconnectDelay = 400;
    refreshStatus();
    source.focus();
  }
}
function finishExitIfReady() {
  if (exitRequested && pending.size === 0 && savedGeneration >= latestGeneration) {
    exitRequested = false;
    socket?.close(1000, 'leave editor');
    location.reload();
  }
}
function handleControl(payload) {
  let message;
  try { message = JSON.parse(payload); } catch (_) { return; }
  if (message.type === 'room') {
    if (roomId !== null && roomId !== message.id) resetDocumentState();
    roomId = message.id;
    socket?.send(JSON.stringify({type: 'room-ready', id: roomId}));
    socket?.send(binaryFrame(0, Y.encodeStateVector(documentState)));
  } else if (message.type === 'presence') presence.textContent = `${message.count} 人在线`;
  else if (message.type === 'ack') {
    pending.delete(message.sequence);
    latestGeneration = Math.max(latestGeneration, message.generation || 0);
    refreshStatus();
  } else if (message.type === 'saved') {
    savedGeneration = Math.max(savedGeneration, message.generation || 0);
    refreshStatus();
    finishExitIfReady();
  } else if (message.type === 'error') setStatus(message.message || '协作发生错误', 'error');
}
function connect() {
  clearTimeout(reconnectTimer);
  synced = false;
  source.disabled = true;
  setStatus('正在连接…');
  const scheme = location.protocol === 'https:' ? 'wss:' : 'ws:';
  socket = new WebSocket(`${scheme}//${location.host}${location.pathname}?mode=collab`);
  socket.binaryType = 'arraybuffer';
  socket.addEventListener('message', event => {
    if (typeof event.data === 'string') handleControl(event.data);
    else handleBinary(event.data);
  });
  socket.addEventListener('close', () => {
"#;

pub const MARKDOWN_JS_5: &'static str = r#"    synced = false;
    source.disabled = true;
    pending.clear();
    if (!editing || exitRequested) return;
    setStatus('连接已断开，正在重连…', 'error');
    reconnectTimer = setTimeout(connect, reconnectDelay);
    reconnectDelay = Math.min(reconnectDelay * 2, 5000);
  });
  socket.addEventListener('error', () => setStatus('协作连接失败', 'error'));
}
async function openEditor() {
  editing = true;
  reader.hidden = true;
  editor.hidden = false;
  document.body.classList.add('editing');
  await updatePreview();
  connect();
}
function syncTextareaChange() {
  if (source.disabled) return;
  const before = sharedText.toString();
  const after = source.value;
  let start = 0;
  while (start < before.length && start < after.length && before[start] === after[start]) start++;
  let beforeEnd = before.length;
  let afterEnd = after.length;
  while (beforeEnd > start && afterEnd > start && before[beforeEnd - 1] === after[afterEnd - 1]) {
    beforeEnd--;
    afterEnd--;
  }
  documentState.transact(() => {
    if (beforeEnd > start) sharedText.delete(start, beforeEnd - start);
    if (afterEnd > start) sharedText.insert(start, after.slice(start, afterEnd));
  }, LOCAL_ORIGIN);
  schedulePreview();
}
observeDocumentState();
function wrapSelection(prefix, suffix = prefix, placeholder = '文本') {
  const start = source.selectionStart;
  const end = source.selectionEnd;
  const selected = source.value.slice(start, end) || placeholder;
  source.setRangeText(`${prefix}${selected}${suffix}`, start, end, 'select');
  source.selectionStart = start + prefix.length;
  source.selectionEnd = start + prefix.length + selected.length;
  source.focus();
  syncTextareaChange();
}
function prefixLines(prefix) {
  const start = source.value.lastIndexOf('\n', Math.max(0, source.selectionStart - 1)) + 1;
  const nextBreak = source.value.indexOf('\n', source.selectionEnd);
  const end = nextBreak < 0 ? source.value.length : nextBreak;
  const text = source.value.slice(start, end).split('\n').map(line => `${prefix}${line}`).join('\n');
  source.setRangeText(text, start, end, 'select');
  source.focus();
  syncTextareaChange();
}

function escapeReviewHtml(value) {
  return String(value ?? '').replace(/[&<>"']/g, character => ({
    '&': '&amp;', '<': '&lt;', '>': '&gt;', '"': '&quot;', "'": '&#39;'
  })[character]);
}
function reviewStatusLabel(value) {
  return {open: '待处理', addressed: '待确认', resolved: '已解决'}[value] || value;
}
function showReviewError(message = '') {
  reviewError.textContent = message;
  reviewError.hidden = !message;
}
function showReviewToast(message) {
  const toast = document.querySelector('#review-toast');
  toast.textContent = message;
  toast.hidden = false;
  clearTimeout(showReviewToast.timer);
  showReviewToast.timer = setTimeout(() => { toast.hidden = true; }, 2200);
}
function validReviewIdentity(value) {
  return value.trim().length > 0;
}
function openIdentityDialog() {
  identityInput.value = reviewIdentity || '';
  identityError.textContent = '';
  if (!identityDialog.open) identityDialog.showModal();
  setTimeout(() => identityInput.focus(), 0);
}
function setReviewIdentity(value) {
  reviewIdentity = value.trim();
  localStorage.setItem(REVIEW_IDENTITY_KEY, reviewIdentity);
  identityButton.textContent = reviewIdentity;
  identityButton.title = `${reviewIdentity} · 点击切换身份`;
  identityDialog.close();
  connectReview();
  const action = pendingIdentityAction;
"#;

pub const MARKDOWN_JS_6: &'static str = r#"  pendingIdentityAction = null;
  action?.();
}
function ensureReviewIdentity() {
  const saved = localStorage.getItem(REVIEW_IDENTITY_KEY) || '';
  if (validReviewIdentity(saved)) {
    reviewIdentity = saved;
    identityButton.textContent = saved;
    identityButton.title = `${saved} · 点击切换身份`;
  } else {
    identityButton.textContent = '设置名称';
    identityButton.title = '设置审阅人名称';
  }
  connectReview();
}
function requireReviewIdentity(action) {
  if (validReviewIdentity(reviewIdentity)) {
    action();
    return;
  }
  pendingIdentityAction = action;
  openIdentityDialog();
}
async function loadReview() {
  try {
    const response = await fetch(`${location.pathname}?mode=review-data`, {cache: 'no-store'});
    if (!response.ok) throw new Error((await response.text()).trim() || '无法读取审阅数据');
    reviewDocument = await response.json();
    if (!Array.isArray(reviewDocument.comments)) reviewDocument.comments = [];
    showReviewError();
    renderReview();
  } catch (error) {
    showReviewError(error.message);
    commentList.innerHTML = '<div class="comment-empty">审阅数据暂时不可用，正文仍可正常阅读和编辑。</div>';
  }
}
async function postReviewAction(action) {
  showReviewError();
  const response = await fetch(`${location.pathname}?mode=review-action`, {
    method: 'POST',
    headers: {'Content-Type': 'application/json; charset=utf-8'},
    body: JSON.stringify(action)
  });
  if (!response.ok) throw new Error((await response.text()).trim() || '无法保存评论');
  reviewDocument = await response.json();
  renderReview();
}
function connectReview() {
  clearTimeout(reviewReconnectTimer);
  reviewSocket?.close(1000, 'identity changed');
  const scheme = location.protocol === 'https:' ? 'wss:' : 'ws:';
  const socket = new WebSocket(`${scheme}//${location.host}${location.pathname}?mode=review-collab`);
  reviewSocket = socket;
  reviewUsers.textContent = '正在连接…';
  socket.addEventListener('open', () => {
    reviewReconnectDelay = 500;
    if (validReviewIdentity(reviewIdentity)) {
      socket.send(JSON.stringify({type: 'join', user: reviewIdentity}));
    }
  });
  socket.addEventListener('message', event => {
    let message;
    try { message = JSON.parse(event.data); } catch (_) { return; }
    if (message.type === 'review-updated') loadReview();
    else if (message.type === 'review-presence') {
      const users = Array.isArray(message.users) ? message.users : [];
      reviewUsers.textContent = users.length ? users.join(' · ') : '暂无在线审阅者';
    } else if (message.type === 'review-error') showReviewError(message.message || '审阅同步失败');
  });
  socket.addEventListener('close', () => {
    if (reviewSocket !== socket) return;
    reviewUsers.textContent = '连接已断开，正在重连…';
    reviewReconnectTimer = setTimeout(connectReview, reviewReconnectDelay);
    reviewReconnectDelay = Math.min(reviewReconnectDelay * 2, 5000);
  });
  socket.addEventListener('error', () => {
    if (reviewSocket === socket) reviewUsers.textContent = '审阅连接失败';
  });
}
function findUnique(haystack, needle) {
  if (!needle) return -1;
  const first = haystack.indexOf(needle);
  if (first < 0 || haystack.indexOf(needle, first + 1) >= 0) return -1;
  return first;
}
function resolveReviewScope(scope) {
  if (!scope || scope.type !== 'range') return null;
  const text = source.value;
"#;

pub const MARKDOWN_JS_7: &'static str = r#"  const quote = String(scope.quote || '');
  let start = Number(scope.start);
  let end = Number(scope.end);
  if (Number.isFinite(start) && Number.isFinite(end) && text.slice(start, end) === quote) {
    return {start, end, stale: false};
  }
  const prefix = String(scope.prefix || '');
  const suffix = String(scope.suffix || '');
  const contextual = `${prefix}${quote}${suffix}`;
  let found = findUnique(text, contextual);
  if (found >= 0) {
    start = found + prefix.length;
    return {start, end: start + quote.length, stale: false};
  }
  found = findUnique(text, quote);
  if (found >= 0) return {start: found, end: found + quote.length, stale: false};
  return {start: -1, end: -1, stale: true};
}
function markReviewRanges(resolvedScopes) {
  article.querySelectorAll('.source-run').forEach(run => {
    run.classList.remove('has-review', 'has-addressed-review');
    delete run.dataset.commentIds;
  });
  reviewDocument.comments.forEach(comment => {
    if (comment.status === 'resolved') return;
    const resolved = resolvedScopes.get(comment.id);
    if (!resolved || resolved.stale) return;
    article.querySelectorAll('.source-run').forEach(run => {
      const start = Number(run.dataset.sourceStart);
      const end = Number(run.dataset.sourceEnd);
      if (end <= resolved.start || start >= resolved.end) return;
      run.classList.add(comment.status === 'addressed' ? 'has-addressed-review' : 'has-review');
      const ids = run.dataset.commentIds ? run.dataset.commentIds.split(',') : [];
      if (!ids.includes(comment.id)) ids.push(comment.id);
      run.dataset.commentIds = ids.join(',');
    });
  });
}
function scrollToCommentSource(commentId) {
  const comment = reviewDocument.comments.find(item => item.id === commentId);
  if (!comment) return;
  const reduceMotion = matchMedia('(prefers-reduced-motion:reduce)').matches;
  if (overlayReviewLayout.matches) closeReviewPanel();
  if (comment.scope?.type === 'document') {
    article.scrollIntoView({behavior: reduceMotion ? 'auto' : 'smooth', block: 'start'});
    return;
  }
  const resolved = resolveReviewScope(comment.scope);
  if (!resolved || resolved.stale) {
    showReviewToast('原文已变化，无法定位这条评论');
    return;
  }
  const runs = Array.from(article.querySelectorAll('.source-run')).filter(run => {
    const start = Number(run.dataset.sourceStart);
    const end = Number(run.dataset.sourceEnd);
    return end > resolved.start && start < resolved.end;
  });
  if (!runs.length) {
    showReviewToast('没有找到对应的正文文本');
    return;
  }
  article.querySelectorAll('.review-target').forEach(run => run.classList.remove('review-target'));
  runs.forEach(run => run.classList.add('review-target'));
  runs[0].scrollIntoView({behavior: reduceMotion ? 'auto' : 'smooth', block: 'center'});
  setTimeout(() => runs.forEach(run => run.classList.remove('review-target')), 1800);
}
function messageMarkup(message, index, commentId) {
  const date = new Date(message.created_at);
  const shownDate = Number.isNaN(date.getTime()) ? message.created_at : date.toLocaleString();
  const edited = message.edited_at ? ' · 已编辑' : '';
"#;

pub const MARKDOWN_JS_8: &'static str = r#"  return `<section class="message" data-comment-id="${escapeReviewHtml(commentId)}" data-message-id="${escapeReviewHtml(message.id || '')}" data-message-index="${index}"><header><strong>${escapeReviewHtml(message.author)}</strong><span><time>${escapeReviewHtml(shownDate)}</time>${edited}</span></header><p>${escapeReviewHtml(message.body)}</p><div class="message-tools"><button type="button" data-message-action="edit">修改</button><button type="button" data-message-action="delete">删除</button></div></section>`;
}
function commentMarkup(comment, resolved) {
  const documentScope = comment.scope?.type === 'document';
  const quote = documentScope
    ? '全文评论'
    : (comment.scope?.display_quote || comment.scope?.quote || '选区评论');
  const stale = !documentScope && resolved?.stale;
  let buttons = documentScope
    ? '<button type="button" data-comment-action="edit-comment">编辑全文评论</button>'
    : '';
  buttons += '<button type="button" data-comment-action="reply">回复</button>';
  if (comment.status === 'open') {
    buttons += '<button class="primary" type="button" data-comment-action="resolve">标记解决</button>';
  } else if (comment.status === 'addressed') {
    buttons += '<button class="primary" type="button" data-comment-action="resolve">确认解决</button><button type="button" data-comment-action="reopen">重新打开</button>';
  } else if (comment.status === 'resolved') {
    buttons += '<button type="button" data-comment-action="reopen">重新打开</button>';
  }
  buttons += `<button type="button" data-comment-action="delete-comment">${documentScope ? '删除全文评论' : '删除整条评论'}</button>`;
  return `<article class="comment-card${selectedCommentId === comment.id ? ' active' : ''}" data-comment-id="${escapeReviewHtml(comment.id)}" title="双击定位正文"><div class="comment-meta"><span class="comment-status ${escapeReviewHtml(comment.status)}">${escapeReviewHtml(reviewStatusLabel(comment.status))}</span><span>${comment.messages.length} 条消息</span></div><p class="comment-scope${stale ? ' stale' : ''}">${stale ? '原文已变化 · ' : ''}${escapeReviewHtml(quote)}</p>${comment.messages.map((message, index) => messageMarkup(message, index, comment.id)).join('')}<div class="comment-actions">${buttons}</div></article>`;
}
function renderReview() {
  const comments = reviewDocument.comments || [];
  const counts = {open: 0, addressed: 0, resolved: 0};
  comments.forEach(comment => { if (counts[comment.status] !== undefined) counts[comment.status] += 1; });
  document.querySelectorAll('[data-review-filter]').forEach(button => {
    button.classList.toggle('active', button.dataset.reviewFilter === reviewFilter);
    button.querySelector('b').textContent = counts[button.dataset.reviewFilter] || 0;
  });
  document.querySelector('#review-count').textContent = counts.open + counts.addressed;
  document.querySelector('#review-complete').hidden = comments.length === 0 || counts.open + counts.addressed > 0;
  const resolvedScopes = new Map(comments.map(comment => [comment.id, resolveReviewScope(comment.scope)]));
  const visible = comments
    .map((comment, index) => ({comment, index, resolved: resolvedScopes.get(comment.id)}))
    .filter(item => item.comment.status === reviewFilter)
    .sort((left, right) => {
      const position = item => {
        if (item.comment.scope?.type === 'document') return -1;
"#;

pub const MARKDOWN_JS_9: &'static str = r#"        if (!item.resolved || item.resolved.stale) return Number.POSITIVE_INFINITY;
        return item.resolved.start;
      };
      return position(left) - position(right) || left.index - right.index;
    });
  commentList.innerHTML = visible.length
    ? visible.map(item => commentMarkup(item.comment, item.resolved)).join('')
    : `<div class="comment-empty">${reviewFilter === 'open' ? '暂无待处理评论。划选正文即可添加批注。' : `暂无${reviewStatusLabel(reviewFilter)}评论。`}</div>`;
  markReviewRanges(resolvedScopes);
  if (selectedCommentId) {
    requestAnimationFrame(() => commentList.querySelector(`[data-comment-id="${CSS.escape(selectedCommentId)}"]`)?.scrollIntoView({block: 'nearest'}));
  }
}
function sourceRunForBoundary(node) {
  const element = node.nodeType === Node.ELEMENT_NODE ? node : node.parentElement;
  return element?.closest?.('.source-run');
}
function sourceOffsetAtBoundary(run, node, offset) {
  const range = document.createRange();
  range.selectNodeContents(run);
  try { range.setEnd(node, offset); } catch (_) { return Number(run.dataset.sourceStart); }
  const visibleOffset = range.toString().length;
  const visibleLength = run.textContent.length;
  const sourceStart = Number(run.dataset.sourceStart);
  const sourceEnd = Number(run.dataset.sourceEnd);
  if (visibleOffset <= 0) return sourceStart;
  if (visibleOffset >= visibleLength) return sourceEnd;
  if (visibleLength === sourceEnd - sourceStart) return sourceStart + visibleOffset;
  return sourceStart + Math.round((sourceEnd - sourceStart) * visibleOffset / visibleLength);
}
function scopeFromSelection() {
  const selection = window.getSelection();
  if (!selection || selection.isCollapsed || !selection.rangeCount) return null;
  const range = selection.getRangeAt(0);
  if (!article.contains(range.commonAncestorContainer)) return null;
  const startRun = sourceRunForBoundary(range.startContainer);
  const endRun = sourceRunForBoundary(range.endContainer);
  if (!startRun || !endRun) return null;
  const start = sourceOffsetAtBoundary(startRun, range.startContainer, range.startOffset);
  const end = sourceOffsetAtBoundary(endRun, range.endContainer, range.endOffset);
  if (!Number.isFinite(start) || !Number.isFinite(end) || end <= start) return null;
  const quote = source.value.slice(start, end);
  if (!quote.trim()) return null;
  return {
    scope: {
      type: 'range', start, end, quote,
      display_quote: selection.toString(),
      prefix: source.value.slice(Math.max(0, start - 64), start),
      suffix: source.value.slice(end, end + 64)
    },
    label: selection.toString()
  };
}
function updateSelectionComment() {
  if (editing) return;
  const selected = scopeFromSelection();
  if (!selected) {
    selectionComment.hidden = true;
    return;
  }
  pendingCommentScope = selected.scope;
  pendingSelectionLabel = selected.label;
  const range = window.getSelection().getRangeAt(0);
  const rect = range.getBoundingClientRect();
  selectionComment.style.left = `${Math.min(innerWidth - 70, Math.max(70, rect.left + rect.width / 2))}px`;
  selectionComment.style.top = `${Math.max(54, rect.top - 7)}px`;
  selectionComment.hidden = false;
}
function openReviewPanel() {
  document.body.classList.remove('review-closed');
  document.querySelector('#review-toggle').setAttribute('aria-expanded', 'true');
}
function closeReviewPanel() {
  document.body.classList.add('review-closed');
"#;

pub const MARKDOWN_JS_10: &'static str = r#"  document.querySelector('#review-toggle').setAttribute('aria-expanded', 'false');
}
function openComposer(scope, label) {
  openReviewPanel();
  pendingCommentScope = scope;
  pendingSelectionLabel = label;
  composerScope.textContent = scope.type === 'document' ? '针对全文' : `“${label.trim()}”`;
  reviewComposer.hidden = false;
  commentBody.value = '';
  commentBody.focus();
}
function closeComposer() {
  reviewComposer.hidden = true;
  commentBody.value = '';
  pendingCommentScope = null;
  pendingSelectionLabel = '';
}
function newReviewId() {
  return globalThis.crypto?.randomUUID?.() || `${Date.now().toString(36)}-${Math.random().toString(36).slice(2)}`;
}
async function submitComment() {
  if (!validReviewIdentity(reviewIdentity)) return requireReviewIdentity(submitComment);
  const body = commentBody.value.trim();
  if (!body || !pendingCommentScope) return;
  const action = {
    type: 'add-comment',
    comment: {
      id: newReviewId(), scope: pendingCommentScope, status: 'open',
      messages: [{id: newReviewId(), author: reviewIdentity, body, created_at: new Date().toISOString()}]
    }
  };
  try {
    await postReviewAction(action);
    closeComposer();
    window.getSelection()?.removeAllRanges();
    selectionComment.hidden = true;
    reviewFilter = 'open';
    renderReview();
    showReviewToast('评论已保存');
  } catch (error) { showReviewError(error.message); }
}
function openReply(card) {
  card.querySelector('.reply-box')?.remove();
  const box = document.createElement('div');
  box.className = 'reply-box';
  box.innerHTML = '<textarea rows="3" aria-label="回复内容" placeholder="Enter 提交 · ⌘ Enter 换行"></textarea><div><button class="text-button" type="button" data-reply-cancel>取消</button><button class="button" type="button" data-reply-submit>发送回复</button></div>';
  card.append(box);
  box.querySelector('textarea').focus();
}
async function handleCommentAction(button) {
  const card = button.closest('.comment-card');
  const commentId = card?.dataset.commentId;
  if (!commentId) return;
  const action = button.dataset.commentAction;
  if (action === 'reply') return requireReviewIdentity(() => openReply(card));
  if (action === 'edit-comment') {
    const message = card.querySelector('.message');
    if (message) return requireReviewIdentity(() => openMessageEditor(message));
    return;
  }
  if (action === 'delete-comment') {
    if (button.dataset.confirming === 'true') {
      try {
        await postReviewAction({type: 'delete-comment', comment_id: commentId});
        showReviewToast('整条评论已删除');
      } catch (error) { showReviewError(error.message); }
      return;
    }
    button.dataset.confirming = 'true';
    button.dataset.defaultLabel = button.textContent;
    button.textContent = `确认${button.dataset.defaultLabel}`;
    setTimeout(() => {
      if (!button.isConnected) return;
      delete button.dataset.confirming;
      button.textContent = button.dataset.defaultLabel;
      delete button.dataset.defaultLabel;
    }, 3000);
    return;
  }
  const status = action === 'resolve' ? 'resolved' : 'open';
  try {
    await postReviewAction({type: 'set-status', comment_id: commentId, status});
    showReviewToast(status === 'resolved' ? '已确认解决' : '评论已重新打开');
  } catch (error) { showReviewError(error.message); }
}
async function submitReply(card) {
"#;

pub const MARKDOWN_JS_11: &'static str = r#"  if (!validReviewIdentity(reviewIdentity)) return requireReviewIdentity(() => submitReply(card));
  const textarea = card.querySelector('.reply-box textarea');
  const body = textarea?.value.trim();
  if (!body) return;
  const comment = reviewDocument.comments.find(item => item.id === card.dataset.commentId);
  try {
    await postReviewAction({
      type: 'add-message', comment_id: card.dataset.commentId,
      message: {id: newReviewId(), author: reviewIdentity, body, created_at: new Date().toISOString()},
      status: comment?.status === 'open' ? null : 'open'
    });
    showReviewToast('回复已保存');
  } catch (error) { showReviewError(error.message); }
}
function messageReference(messageElement) {
  return {
    comment_id: messageElement.dataset.commentId,
    message_id: messageElement.dataset.messageId || null,
    message_index: Number(messageElement.dataset.messageIndex)
  };
}
function openMessageEditor(messageElement) {
  messageElement.querySelector('.message-editor')?.remove();
  const editor = document.createElement('div');
  editor.className = 'message-editor';
  editor.innerHTML = '<textarea rows="3" aria-label="修改消息" placeholder="Enter 提交 · ⌘ Enter 换行"></textarea><div><button class="text-button" type="button" data-message-edit-cancel>取消</button><button class="button" type="button" data-message-edit-submit>保存修改</button></div>';
  editor.querySelector('textarea').value = messageElement.querySelector('p').textContent;
  messageElement.append(editor);
  editor.querySelector('textarea').focus();
}
async function submitMessageEdit(messageElement) {
  const body = messageElement.querySelector('.message-editor textarea')?.value.trim();
  if (!body) return;
  try {
    await postReviewAction({
      type: 'edit-message', ...messageReference(messageElement), body,
      edited_at: new Date().toISOString()
    });
    showReviewToast('消息已修改');
  } catch (error) { showReviewError(error.message); }
}
async function deleteMessage(messageElement) {
  try {
    await postReviewAction({type: 'delete-message', ...messageReference(messageElement)});
    showReviewToast('消息已删除');
  } catch (error) { showReviewError(error.message); }
}
document.querySelector('#edit-button').addEventListener('click', openEditor);
document.querySelector('#review-toggle').addEventListener('click', () => {
  const closing = !document.body.classList.contains('review-closed');
  document.body.classList.toggle('review-closed', closing);
  document.querySelector('#review-toggle').setAttribute('aria-expanded', String(!closing));
});
document.querySelector('#review-close').addEventListener('click', () => {
  closeReviewPanel();
});
identityButton.addEventListener('click', () => {
  pendingIdentityAction = null;
  openIdentityDialog();
});
identityDialog.addEventListener('cancel', () => {
  pendingIdentityAction = null;
});
identityDialog.querySelector('form').addEventListener('submit', event => {
  event.preventDefault();
  const value = identityInput.value.trim();
  if (!validReviewIdentity(value)) {
    identityError.textContent = '请输入审阅人名称';
    identityInput.focus();
    return;
  }
  setReviewIdentity(value);
});
document.querySelector('#document-comment').addEventListener('click', () => {
  requireReviewIdentity(() => openComposer({type: 'document'}, '全文评论'));
});
function activateSelectionComment() {
  const scope = pendingCommentScope;
  const label = pendingSelectionLabel;
"#;

pub const MARKDOWN_JS_12: &'static str = r#"  if (scope) requireReviewIdentity(() => openComposer(scope, label));
  selectionComment.hidden = true;
}
selectionComment.addEventListener('touchend', event => {
  event.preventDefault();
  activateSelectionComment();
}, {passive: false});
selectionComment.addEventListener('click', activateSelectionComment);
document.querySelector('#composer-cancel').addEventListener('click', closeComposer);
document.querySelector('#composer-submit').addEventListener('click', submitComment);
commentBody.addEventListener('keydown', event => {
  if (event.key !== 'Enter' || event.isComposing || event.keyCode === 229) return;
  event.preventDefault();
  if (event.metaKey) {
    commentBody.setRangeText('\n', commentBody.selectionStart, commentBody.selectionEnd, 'end');
  } else submitComment();
});
document.querySelector('.review-filters').addEventListener('click', event => {
  const filter = event.target.closest('[data-review-filter]')?.dataset.reviewFilter;
  if (!filter) return;
  reviewFilter = filter;
  selectedCommentId = null;
  renderReview();
});
commentList.addEventListener('click', event => {
  const actionButton = event.target.closest('[data-comment-action]');
  if (actionButton) return handleCommentAction(actionButton);
  const messageElement = event.target.closest('.message');
  const messageAction = event.target.closest('[data-message-action]');
  if (messageAction?.dataset.messageAction === 'edit') {
    return requireReviewIdentity(() => openMessageEditor(messageElement));
  }
  if (messageAction?.dataset.messageAction === 'delete') {
    if (messageAction.dataset.confirming === 'true') return deleteMessage(messageElement);
    messageAction.dataset.confirming = 'true';
    messageAction.textContent = '确认删除';
    setTimeout(() => {
      if (!messageAction.isConnected) return;
      delete messageAction.dataset.confirming;
      messageAction.textContent = '删除';
    }, 3000);
    return;
  }
  if (event.target.closest('[data-message-edit-cancel]')) return messageElement.querySelector('.message-editor')?.remove();
  if (event.target.closest('[data-message-edit-submit]')) return submitMessageEdit(messageElement);
  const card = event.target.closest('.comment-card');
  if (event.target.closest('[data-reply-cancel]')) return card.querySelector('.reply-box')?.remove();
  if (event.target.closest('[data-reply-submit]')) return submitReply(card);
});
commentList.addEventListener('keydown', event => {
  if (event.key !== 'Enter' || event.isComposing || event.keyCode === 229) return;
  const isReply = event.target.matches('.reply-box textarea');
  const isEdit = event.target.matches('.message-editor textarea');
  if (!isReply && !isEdit) return;
  event.preventDefault();
  if (event.metaKey) {
    event.target.setRangeText('\n', event.target.selectionStart, event.target.selectionEnd, 'end');
    return;
  }
  if (isReply) {
    submitReply(event.target.closest('.comment-card'));
  } else if (isEdit) {
    submitMessageEdit(event.target.closest('.message'));
  }
});
commentList.addEventListener('dblclick', event => {
  if (event.target.closest('button,textarea')) return;
  const commentId = event.target.closest('.comment-card')?.dataset.commentId;
  if (commentId) scrollToCommentSource(commentId);
});
article.addEventListener('mouseup', () => setTimeout(updateSelectionComment, 0));
article.addEventListener('keyup', () => setTimeout(updateSelectionComment, 0));
"#;

pub const MARKDOWN_JS_13: &'static str = r#"article.addEventListener('touchend', () => setTimeout(updateSelectionComment, 80), {passive: true});
document.addEventListener('selectionchange', () => {
  clearTimeout(updateSelectionComment.timer);
  updateSelectionComment.timer = setTimeout(updateSelectionComment, 80);
});
article.addEventListener('click', event => {
  const selection = window.getSelection();
  if (touchReviewDevice.matches
      && !document.body.classList.contains('review-closed')
      && selection?.isCollapsed) {
    closeReviewPanel();
    return;
  }
  const ids = event.target.closest('.source-run[data-comment-ids]')?.dataset.commentIds?.split(',');
  if (!ids?.length || !selection?.isCollapsed) return;
  const comment = reviewDocument.comments.find(item => item.id === ids[0]);
  if (!comment) return;
  selectedCommentId = comment.id;
  reviewFilter = comment.status;
  openReviewPanel();
  renderReview();
});
document.addEventListener('pointerdown', event => {
  if (!selectionComment.contains(event.target) && !article.contains(event.target)) {
    selectionComment.hidden = true;
  }
});
document.querySelector('#cancel-button').addEventListener('click', () => {
  if (!socket || socket.readyState !== WebSocket.OPEN) {
    setStatus('连接恢复后才能安全退出', 'error');
    return;
  }
  exitRequested = true;
  source.disabled = true;
  setStatus('正在保存并退出…', 'connected');
  socket.send(JSON.stringify({type: 'save'}));
});
document.querySelector('#save-button').addEventListener('click', () => {
  if (socket?.readyState === WebSocket.OPEN) {
    setStatus('正在保存…', 'connected');
    socket.send(JSON.stringify({type: 'save'}));
  }
});
document.querySelector('.format-tools').addEventListener('click', event => {
  const action = event.target.closest('button')?.dataset.format;
  if (!action || source.disabled) return;
  if (action === 'heading') prefixLines('## ');
  if (action === 'bold') wrapSelection('**');
  if (action === 'italic') wrapSelection('_');
  if (action === 'link') wrapSelection('[', '](https://)', '链接文字');
  if (action === 'quote') prefixLines('> ');
  if (action === 'code') wrapSelection('`');
  if (action === 'list') prefixLines('- ');
  if (action === 'task') prefixLines('- [ ] ');
});
source.addEventListener('input', syncTextareaChange);
source.addEventListener('scroll', syncPreviewFromSource, {passive: true});
preview.addEventListener('load', () => {
  const win = preview.contentWindow;
  const doc = preview.contentDocument;
  win?.addEventListener('scroll', syncSourceFromPreview, {passive: true});
  doc?.addEventListener('load', event => {
    if (event.target instanceof win.HTMLImageElement) scheduleScrollMapRebuild();
  }, true);
  previewResizeObserver?.disconnect();
  const article = doc?.querySelector('article');
  if (article && win?.ResizeObserver) {
    previewResizeObserver = new win.ResizeObserver(() => scheduleScrollMapRebuild());
    previewResizeObserver.observe(article);
  }
  scheduleScrollMapRebuild();
});
new ResizeObserver(() => scheduleScrollMapRebuild()).observe(source);
source.addEventListener('keydown', event => {
  if (event.key === 'Tab') {
    event.preventDefault();
    source.setRangeText('  ', source.selectionStart, source.selectionEnd, 'end');
    syncTextareaChange();
  }
  if ((event.ctrlKey || event.metaKey) && event.key.toLowerCase() === 's') {
    event.preventDefault();
    document.querySelector('#save-button').click();
  }
});
"#;

pub const MARKDOWN_JS_14: &'static str = r#"window.addEventListener('beforeunload', event => {
  if (editing && (pending.size > 0 || !synced)) {
    event.preventDefault();
    event.returnValue = '';
  }
});
buildViewerTools();
loadReview();
ensureReviewIdentity();
"#;

/// The style sheet of directory listings, as text.
pub open spec fn directory_style() -> Seq<char> {
    DIRECTORY_CSS_1@ + DIRECTORY_CSS_2@ + DIRECTORY_CSS_3@ + DIRECTORY_CSS_4@ + DIRECTORY_CSS_5@ + DIRECTORY_CSS_6@ + DIRECTORY_CSS_7@ + DIRECTORY_CSS_8@ + DIRECTORY_CSS_9@ + DIRECTORY_CSS_10@ + DIRECTORY_CSS_11@ + DIRECTORY_CSS_12@ + DIRECTORY_CSS_13@ + DIRECTORY_CSS_14@
}

/// The style sheet of directory listings.
pub fn directory_css() -> (r: String)
    ensures
        r@ == directory_style(),
{
    let mut r = String::new();
    crate::text::push_str(&mut r, DIRECTORY_CSS_1);
    crate::text::push_str(&mut r, DIRECTORY_CSS_2);
    crate::text::push_str(&mut r, DIRECTORY_CSS_3);
    crate::text::push_str(&mut r, DIRECTORY_CSS_4);
    crate::text::push_str(&mut r, DIRECTORY_CSS_5);
    crate::text::push_str(&mut r, DIRECTORY_CSS_6);
    crate::text::push_str(&mut r, DIRECTORY_CSS_7);
    crate::text::push_str(&mut r, DIRECTORY_CSS_8);
    crate::text::push_str(&mut r, DIRECTORY_CSS_9);
    crate::text::push_str(&mut r, DIRECTORY_CSS_10);
    crate::text::push_str(&mut r, DIRECTORY_CSS_11);
    crate::text::push_str(&mut r, DIRECTORY_CSS_12);
    crate::text::push_str(&mut r, DIRECTORY_CSS_13);
    crate::text::push_str(&mut r, DIRECTORY_CSS_14);
    proof {
        assert(r@ =~= directory_style());
    }
    r
}

/// The script of directory listings and the gallery, as text.
pub open spec fn directory_script_text() -> Seq<char> {
    DIRECTORY_JS_1@ + DIRECTORY_JS_2@ + DIRECTORY_JS_3@ + DIRECTORY_JS_4@ + DIRECTORY_JS_5@ + DIRECTORY_JS_6@ + DIRECTORY_JS_7@ + DIRECTORY_JS_8@ + DIRECTORY_JS_9@ + DIRECTORY_JS_10@ + DIRECTORY_JS_11@ + DIRECTORY_JS_12@ + DIRECTORY_JS_13@ + DIRECTORY_JS_14@ + DIRECTORY_JS_15@ + DIRECTORY_JS_16@ + DIRECTORY_JS_17@ + DIRECTORY_JS_18@ + DIRECTORY_JS_19@ + DIRECTORY_JS_20@ + DIRECTORY_JS_21@ + DIRECTORY_JS_22@ + DIRECTORY_JS_23@ + DIRECTORY_JS_24@ + DIRECTORY_JS_25@ + DIRECTORY_JS_26@ + DIRECTORY_JS_27@ + DIRECTORY_JS_28@ + DIRECTORY_JS_29@
}

/// The script of directory listings and the gallery.
pub fn directory_script() -> (r: String)
    ensures
        r@ == directory_script_text(),
{
    let mut r = String::new();
    crate::text::push_str(&mut r, DIRECTORY_JS_1);
    crate::text::push_str(&mut r, DIRECTORY_JS_2);
    crate::text::push_str(&mut r, DIRECTORY_JS_3);
    crate::text::push_str(&mut r, DIRECTORY_JS_4);
    crate::text::push_str(&mut r, DIRECTORY_JS_5);
    crate::text::push_str(&mut r, DIRECTORY_JS_6);
    crate::text::push_str(&mut r, DIRECTORY_JS_7);
    crate::text::push_str(&mut r, DIRECTORY_JS_8);
    crate::text::push_str(&mut r, DIRECTORY_JS_9);
    crate::text::push_str(&mut r, DIRECTORY_JS_10);
    crate::text::push_str(&mut r, DIRECTORY_JS_11);
    crate::text::push_str(&mut r, DIRECTORY_JS_12);
    crate::text::push_str(&mut r, DIRECTORY_JS_13);
    crate::text::push_str(&mut r, DIRECTORY_JS_14);
    crate::text::push_str(&mut r, DIRECTORY_JS_15);
    crate::text::push_str(&mut r, DIRECTORY_JS_16);
    crate::text::push_str(&mut r, DIRECTORY_JS_17);
    crate::text::push_str(&mut r, DIRECTORY_JS_18);
    crate::text::push_str(&mut r, DIRECTORY_JS_19);
    crate::text::push_str(&mut r, DIRECTORY_JS_20);
    crate::text::push_str(&mut r, DIRECTORY_JS_21);
    crate::text::push_str(&mut r, DIRECTORY_JS_22);
    crate::text::push_str(&mut r, DIRECTORY_JS_23);
    crate::text::push_str(&mut r, DIRECTORY_JS_24);
    crate::text::push_str(&mut r, DIRECTORY_JS_25);
    crate::text::push_str(&mut r, DIRECTORY_JS_26);
    crate::text::push_str(&mut r, DIRECTORY_JS_27);
    crate::text::push_str(&mut r, DIRECTORY_JS_28);
    crate::text::push_str(&mut r, DIRECTORY_JS_29);
    proof {
        assert(r@ =~= directory_script_text());
    }
    r
}

/// The script of the Markdown reader, editor and review panel, as text.
pub open spec fn markdown_script_text() -> Seq<char> {
    MARKDOWN_JS_1@ + MARKDOWN_JS_2@ + MARKDOWN_JS_3@ + MARKDOWN_JS_4@ + MARKDOWN_JS_5@ + MARKDOWN_JS_6@ + MARKDOWN_JS_7@ + MARKDOWN_JS_8@ + MARKDOWN_JS_9@ + MARKDOWN_JS_10@ + MARKDOWN_JS_11@ + MARKDOWN_JS_12@ + MARKDOWN_JS_13@ + MARKDOWN_JS_14@
}

/// The script of the Markdown reader, editor and review panel.
pub fn markdown_script() -> (r: String)
    ensures
        r@ == markdown_script_text(),
{
    let mut r = String::new();
    crate::text::push_str(&mut r, MARKDOWN_JS_1);
    crate::text::push_str(&mut r, MARKDOWN_JS_2);
    crate::text::push_str(&mut r, MARKDOWN_JS_3);
    crate::text::push_str(&mut r, MARKDOWN_JS_4);
    crate::text::push_str(&mut r, MARKDOWN_JS_5);
    crate::text::push_str(&mut r, MARKDOWN_JS_6);
    crate::text::push_str(&mut r, MARKDOWN_JS_7);
    crate::text::push_str(&mut r, MARKDOWN_JS_8);
    crate::text::push_str(&mut r, MARKDOWN_JS_9);
    crate::text::push_str(&mut r, MARKDOWN_JS_10);
    crate::text::push_str(&mut r, MARKDOWN_JS_11);
    crate::text::push_str(&mut r, MARKDOWN_JS_12);
    crate::text::push_str(&mut r, MARKDOWN_JS_13);
    crate::text::push_str(&mut r, MARKDOWN_JS_14);
    proof {
        assert(r@ =~= markdown_script_text());
    }
    r
}

} // verus!
