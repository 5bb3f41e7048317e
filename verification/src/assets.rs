//! The style sheets, scripts and fragments built into the pages.
use vstd::prelude::*;

verus! {

/// The style of the sign-in and refusal pages.
pub const AUTH_PAGE_CSS: &'static str = r#"
:root { color-scheme:light dark; --paper:#f4f5fb; --surface:#fff; --ink:#202333; --muted:#73788b; --line:#dfe3ee; --accent:#5b5bd6; --accent-soft:#eeeeff; } * { box-sizing:border-box; } body { min-height:100vh; margin:0; display:grid; place-items:center; color:var(--ink); background:radial-gradient(circle at 15% 15%,#dedfff 0,transparent 26rem),var(--paper); font-family:Inter,ui-sans-serif,-apple-system,BlinkMacSystemFont,"Segoe UI","Noto Sans SC",sans-serif; } main { width:min(100% - 2rem,34rem); } .auth-card { position:relative; overflow:hidden; padding:clamp(2rem,7vw,4rem); border:1px solid var(--line); border-radius:1.4rem; background:color-mix(in srgb,var(--surface) 92%,transparent); box-shadow:0 26px 70px rgba(54,59,92,.16); } .auth-card::after { position:absolute; right:-2.5rem; bottom:-3rem; width:11rem; height:11rem; border:1.5rem solid var(--accent-soft); border-radius:2.5rem; content:""; transform:rotate(22deg); } .lock { display:grid; place-items:center; width:3rem; height:3rem; margin-bottom:1.5rem; border-radius:1rem; color:var(--accent); background:var(--accent-soft); font-size:2rem; } .eyebrow { margin:0 0 .75rem; color:var(--accent); font:700 .72rem/1 ui-monospace,SFMono-Regular,Consolas,monospace; letter-spacing:.14em; } h1 { margin:0; font-family:"Iowan Old Style","Noto Serif SC",Georgia,serif; font-size:clamp(2rem,8vw,3.5rem); letter-spacing:-.05em; } h1+p { position:relative; z-index:1; margin:1rem 0 2rem; color:var(--muted); line-height:1.7; } form { position:relative; z-index:1; } label { display:block; margin-bottom:.55rem; font-size:.8rem; font-weight:700; } .token-row { display:flex; gap:.55rem; } input { min-width:0; flex:1; padding:.8rem .9rem; border:1px solid var(--line); border-radius:.65rem; color:var(--ink); background:var(--paper); font:inherit; } button { flex:0 0 auto; padding:.8rem 1rem; border:0; border-radius:.65rem; color:#fff; background:var(--accent); font:700 .8rem/1 ui-sans-serif,sans-serif; cursor:pointer; } button:hover { filter:brightness(1.08); } #auth-error { color:#b42336; } @media (max-width:500px) { .token-row { display:grid; } button { min-height:2.8rem; } } @media (prefers-color-scheme:dark) { :root { --paper:#11131b; --surface:#191c27; --ink:#edf0f7; --muted:#969daf; --line:#303545; --accent:#a9a5ff; --accent-soft:#292943; } body { background:radial-gradient(circle at 15% 15%,#292943 0,transparent 26rem),var(--paper); } }
"#;

/// The style of the not-found page, part 1 of 2.
pub const NOT_FOUND_CSS_1: &'static str = r#"
:root { color-scheme:light dark; --canvas:#f3f5fb; --surface:#fff; --ink:#202334; --muted:#6f7487; --line:#dce0eb; --accent:#5b5bd6; --accent-dark:#4545bb; --accent-soft:#e8e8ff; --shadow:rgba(49,53,87,.14); }
* { box-sizing:border-box; }
html,body { min-height:100%; }
body { display:grid; place-items:center; margin:0; padding:clamp(1.25rem,4vw,3rem); color:var(--ink); background:radial-gradient(circle at 14% 12%,rgba(91,91,214,.11),transparent 26rem),linear-gradient(135deg,transparent 0 49.7%,rgba(91,91,214,.045) 49.8% 50.2%,transparent 50.3%) var(--canvas); background-size:auto,32px 32px; font-family:Inter,ui-sans-serif,-apple-system,BlinkMacSystemFont,"Segoe UI","Noto Sans SC",sans-serif; }
main { display:grid; grid-template-columns:minmax(0,1.08fr) minmax(18rem,.92fr); align-items:center; width:min(100%,980px); min-height:min(650px,calc(100vh - 6rem)); overflow:hidden; border:1px solid var(--line); border-radius:1.5rem; background:var(--surface); box-shadow:0 28px 80px var(--shadow); }
.message { padding:clamp(2rem,7vw,5.5rem); }
.status { display:flex; align-items:center; gap:.6rem; margin:0 0 2rem; color:var(--accent); font:750 .72rem/1 ui-monospace,SFMono-Regular,Consolas,monospace; letter-spacing:.14em; }
.status span { width:.55rem; height:.55rem; border-radius:50%; background:var(--accent); box-shadow:0 0 0 .35rem var(--accent-soft); }
h1 { max-width:10ch; margin:0; font:720 clamp(2.25rem,4.2vw,3.5rem)/1.08 ui-rounded,"SF Pro Rounded","Nunito Sans",Inter,ui-sans-serif,sans-serif; letter-spacing:-.035em; }
.explanation { max-width:27rem; margin:1.65rem 0 0; color:var(--muted); font-size:clamp(.95rem,1.4vw,1.05rem); line-height:1.75; }
.requested { display:grid; gap:.55rem; margin:2rem 0 2.25rem; }
.requested span { color:var(--muted); font:650 .68rem/1 ui-monospace,SFMono-Regular,Consolas,monospace; letter-spacing:.1em; }
.requested code { display:block; width:100%; max-width:30rem; padding:.8rem 1rem; border:1px solid var(--line); border-radius:.65rem; color:var(--ink); background:var(--canvas); font:550 .82rem/1.5 ui-monospace,SFMono-Regular,Consolas,monospace; overflow-wrap:anywhere; white-space:pre-wrap; }
nav { display:flex; align-items:center; gap:1rem; flex-wrap:wrap; }
nav a { display:inline-flex; align-items:center; justify-content:center; min-height:2.9rem; border-radius:.7rem; font-size:.86rem; font-weight:700; text-decoration:none; transition:transform .16s ease,background .16s ease,border-color .16s ease; }
.primary { gap:1.2rem; padding:.75rem 1.05rem  .75rem 1.2rem; color:#fff; background:var(--accent); box-shadow:0 8px 22px rgba(91,91,214,.24); }
.primary:hover { background:var(--accent-dark); transform:translateY(-2px); }
.primary span { font-size:1.1rem; }
.secondary { padding:.75rem .35rem; color:var(--muted); }
.secondary:hover { color:var(--accent); }
.visual { align-self:stretch; display:grid; place-items:center; align-content:center; gap:2rem; min-width:0; padding:3rem; overflow:hidden; border-left:1px solid var(--line); background:linear-gradient(145deg,var(--accent-soft),color-mix(in srgb,var(--surface) 65%,var(--accent-soft))); }
.visual>p { margin:0; color:var(--accent); font:700 .66rem/1 ui-monospace,SFMono-Regular,Consolas,monospace; letter-spacing:.18em; }
.file-card { position:relative; width:min(18rem,70vw); aspect-ratio:4/5; padding:2rem; color:var(--ink); background:var(--surface); filter:drop-shadow(0 22px 24px rgba(54,55,112,.18)); transform:rotate(3deg); }
.file-card::after { position:absolute; inset:.75rem; border:1px solid var(--line); content:""; pointer-events:none; }
.fold { position:absolute; top:0; right:0; width:4rem; height:4rem; background:linear-gradient(45deg,var(--accent-soft) 49%,var(--line) 50% 51%,transparent 52%); }
.file-label { position:relative; display:inline-block; z-index:1; margin-top:1.2rem; padding:.35rem .55rem; color:#fff; background:var(--accent); font:750 .65rem/1 ui-monospace,SFMono-Regular,Consolas,monospace; letter-spacing:.12em; }
"#;

/// The style of the not-found page, part 2 of 2.
pub const NOT_FOUND_CSS_2: &'static str = r#".file-card strong { position:relative; z-index:1; display:block; margin:2.2rem 0 2.5rem; color:var(--accent); font:800 clamp(4.5rem,10vw,7rem)/.8 ui-rounded,"SF Pro Rounded",Inter,sans-serif; letter-spacing:-.08em; }
.rule { position:relative; z-index:1; height:.65rem; margin-top:.8rem; border-radius:1rem; background:var(--line); }
.rule.long { width:75%; }
.rule.short { width:48%; }
.tear { position:absolute; right:-1px; bottom:2.2rem; left:-1px; display:flex; align-items:center; justify-content:space-between; border-top:2px dashed var(--accent); }
.tear i { width:1rem; height:1rem; margin-top:-.5rem; border-radius:50%; background:var(--accent-soft); }
:focus-visible { outline:3px solid color-mix(in srgb,var(--accent) 55%,transparent); outline-offset:3px; }
@media (max-width:760px) { body { display:block; padding:0; background:var(--surface); } main { display:block; min-height:100vh; min-height:100dvh; border:0; border-radius:0; box-shadow:none; } .message { padding:3rem 1.5rem 2.5rem; } .status { margin-bottom:1.5rem; } h1 { font-size:clamp(2.35rem,11vw,3.2rem); } .visual { min-height:23rem; border-top:1px solid var(--line); border-left:0; } .file-card { width:12rem; padding:1.5rem; } .file-card strong { margin:1.5rem 0 2rem; font-size:4.5rem; } }
@media (prefers-color-scheme:dark) { :root { --canvas:#10121a; --surface:#191c27; --ink:#eef0f7; --muted:#9ca2b3; --line:#323746; --accent:#aaa7ff; --accent-dark:#c0bdff; --accent-soft:#292942; --shadow:rgba(0,0,0,.3); } .primary { color:#171826; background:#aaa7ff; box-shadow:0 8px 24px rgba(90,85,190,.22); } .primary:hover { background:#c0bdff; } }
@media (prefers-reduced-motion:reduce) { nav a { transition:none; } .primary:hover { transform:none; } }
"#;

/// The style of the SVG and image viewers.
pub const SVG_CSS: &'static str = r#"
:root { --file-header-padding:max(1rem,calc((100vw - 1440px)/2)); color-scheme:light dark; --paper:#f7f8fc; --surface:#fff; --ink:#272a38; --muted:#73788b; --line:#dfe3ee; --accent:#5b5bd6; --accent-soft:#eeeeff; --grid:#dfe3ec; }
* { box-sizing:border-box; }
html,body { width:100%; min-height:100%; }
body { margin:0; color:var(--ink); background:var(--paper); font-family:Inter,ui-sans-serif,-apple-system,BlinkMacSystemFont,"Segoe UI","Noto Sans SC",sans-serif; }
header { position:sticky; top:0; z-index:2; display:flex; align-items:center; gap:.65rem; min-height:3.6rem; padding:.7rem var(--file-header-padding); border-bottom:1px solid var(--line); background:color-mix(in srgb,var(--paper) 90%,transparent); backdrop-filter:blur(16px); }
.back { display:grid; place-items:center; width:2rem; height:2rem; border-radius:.5rem; color:var(--muted); text-decoration:none; }
.back:hover { color:var(--accent); background:var(--accent-soft); }
.kind { flex:0 0 auto; padding:.28rem .5rem; border-radius:.35rem; color:white; background:var(--accent); font:750 .62rem/1 ui-monospace,SFMono-Regular,Consolas,monospace; letter-spacing:.05em; }
.filename { overflow:hidden; font:650 .82rem/1.2 ui-monospace,SFMono-Regular,Consolas,monospace; text-overflow:ellipsis; white-space:nowrap; }
.meta { margin-left:auto; color:var(--muted); font:500 .7rem/1 ui-monospace,SFMono-Regular,Consolas,monospace; white-space:nowrap; }
button,.raw { min-height:2rem; padding:.45rem .65rem; border:1px solid var(--line); border-radius:.45rem; color:var(--ink); background:var(--surface); font:650 .72rem/1 ui-sans-serif,-apple-system,sans-serif; text-decoration:none; cursor:pointer; }
button:hover,.raw:hover { border-color:var(--accent); color:var(--accent); }
.canvas { display:grid; place-items:center; width:min(100% - 2rem,1440px); height:calc(100vh - 8rem); height:calc(100dvh - 8rem); min-height:18rem; margin:1rem auto; overflow:auto; border:1px solid var(--line); border-radius:.9rem; background-color:var(--surface); background-image:linear-gradient(45deg,var(--grid) 25%,transparent 25%),linear-gradient(-45deg,var(--grid) 25%,transparent 25%),linear-gradient(45deg,transparent 75%,var(--grid) 75%),linear-gradient(-45deg,transparent 75%,var(--grid) 75%); background-position:0 0,0 8px,8px -8px,-8px 0; background-size:16px 16px; box-shadow:0 22px 60px rgba(54,59,92,.08); }
#artwork { display:block; max-width:calc(100% - 3rem); max-height:calc(100% - 3rem); }
body.actual .canvas { place-items:start; padding:1.5rem; }
body.actual #artwork { max-width:none; max-height:none; }
#error { align-self:center; justify-self:center; padding:1rem 1.25rem; border:1px solid var(--line); border-radius:.65rem; color:var(--muted); background:var(--surface); }
:focus-visible { outline:3px solid color-mix(in srgb,var(--accent) 55%,transparent); outline-offset:2px; }
@media (max-width:700px) { :root { --file-header-padding:.65rem; } .meta { display:none; } .canvas { width:100%; height:calc(100vh - 6rem); height:calc(100dvh - 6rem); margin:0; border-width:0; border-radius:0; } #artwork { max-width:calc(100% - 2rem); max-height:calc(100% - 2rem); } }
@media (prefers-color-scheme:dark) { :root { --paper:#11131b; --surface:#191c27; --ink:#edf0f7; --muted:#969daf; --line:#303545; --accent:#a9a5ff; --accent-soft:#292943; --grid:#292d39; } body { background-image:radial-gradient(circle at 50% -20%,#252943 0,transparent 38rem); } .canvas { box-shadow:0 22px 60px rgba(0,0,0,.24); } }
"#;

/// The script of the SVG and image viewers.
pub const SVG_JS: &'static str = r#"
const artwork = document.querySelector('#artwork');
const error = document.querySelector('#error');
artwork.addEventListener('error', () => {
  artwork.hidden = true;
  error.hidden = false;
});
document.querySelector('#scale').addEventListener('click', (event) => {
  const actual = document.body.classList.toggle('actual');
  event.currentTarget.textContent = actual ? '适应画布' : '原始尺寸';
});
"#;

/// The style of the video player page.
pub const VIDEO_CSS: &'static str = r#"
:root { color-scheme:dark; --paper:#0b0d12; --surface:#141821; --ink:#f1f3f8; --muted:#9ba3b2; --line:#2b3240; --accent:#a9a5ff; --accent-soft:#292943; --file-header-padding:max(1rem,calc((100vw - 1500px)/2)); }
* { box-sizing:border-box; }
html,body { width:100%; min-height:100%; }
body { margin:0; color:var(--ink); background:var(--paper); font-family:Inter,ui-sans-serif,-apple-system,BlinkMacSystemFont,"Segoe UI","Noto Sans SC",sans-serif; }
header { position:sticky; top:0; z-index:3; display:flex; align-items:center; gap:.65rem; min-height:3.6rem; padding:.7rem var(--file-header-padding); border-bottom:1px solid var(--line); background:rgba(11,13,18,.9); backdrop-filter:blur(16px); }
.back { display:grid; place-items:center; width:2rem; height:2rem; border:0; border-radius:.5rem; color:var(--muted); background:transparent; font:inherit; cursor:pointer; }
.back:hover { color:var(--accent); background:var(--accent-soft); }
.kind { flex:0 0 auto; padding:.28rem .5rem; border-radius:.35rem; color:#11131b; background:var(--accent); font:750 .62rem/1 ui-monospace,SFMono-Regular,Consolas,monospace; letter-spacing:.05em; }
.filename { min-width:0; overflow:hidden; font:650 .82rem/1.2 ui-monospace,SFMono-Regular,Consolas,monospace; text-overflow:ellipsis; white-space:nowrap; }
.meta { margin-left:auto; color:var(--muted); font:500 .7rem/1 ui-monospace,SFMono-Regular,Consolas,monospace; white-space:nowrap; }
.download { flex:0 0 auto; padding:.6rem .75rem; border:1px solid var(--line); border-radius:.5rem; color:var(--ink); font:650 .72rem/1 ui-sans-serif,sans-serif; text-decoration:none; }
.download:hover { border-color:var(--accent); color:var(--accent); background:var(--accent-soft); }
main { min-height:calc(100vh - 6rem); min-height:calc(100dvh - 6rem); display:grid; place-items:center; padding:1.2rem; }
.player { position:relative; display:grid; place-items:center; width:min(100%,1500px); min-height:min(76vh,52rem); overflow:hidden; border:1px solid var(--line); border-radius:1rem; background:#000; box-shadow:0 28px 80px rgba(0,0,0,.38); }
video { display:block; width:100%; max-height:calc(100vh - 8.5rem); max-height:calc(100dvh - 8.5rem); background:#000; }
:focus-visible { outline:3px solid color-mix(in srgb,var(--accent) 60%,transparent); outline-offset:2px; }
@media (max-width:650px) { :root { --file-header-padding:.65rem; } .meta { display:none; } header { gap:.45rem; } main { min-height:calc(100dvh - 6rem); padding:.6rem; } .player { width:100%; min-height:0; border-radius:.65rem; } video { max-height:calc(100dvh - 7.5rem); } }
"#;

/// The style of the text viewer.
pub const TEXT_CSS: &'static str = r#"
:root { --file-header-padding:max(1rem,calc((100vw - 1280px)/2)); color-scheme:light dark; --paper:#f7f8fc; --surface:#fff; --ink:#272a38; --muted:#73788b; --line:#dfe3ee; --accent:#5b5bd6; --accent-soft:#eeeeff; --gutter:#f0f2f8; }
* { box-sizing:border-box; }
html,body { min-height:100%; }
body { margin:0; color:var(--ink); background:var(--paper); font-family:Inter,ui-sans-serif,-apple-system,BlinkMacSystemFont,"Segoe UI","Noto Sans SC",sans-serif; }
header { position:sticky; top:0; z-index:2; display:flex; align-items:center; gap:.65rem; min-height:3.6rem; padding:.7rem var(--file-header-padding); border-bottom:1px solid var(--line); background:color-mix(in srgb,var(--paper) 90%,transparent); backdrop-filter:blur(16px); }
.back { display:grid; place-items:center; width:2rem; height:2rem; border-radius:.5rem; color:var(--muted); text-decoration:none; }
.back:hover { color:var(--accent); background:var(--accent-soft); }
.kind { flex:0 0 auto; padding:.28rem .5rem; border-radius:.35rem; color:white; background:var(--accent); font:750 .62rem/1 ui-monospace,SFMono-Regular,Consolas,monospace; letter-spacing:.05em; }
.filename { overflow:hidden; font:650 .82rem/1.2 ui-monospace,SFMono-Regular,Consolas,monospace; text-overflow:ellipsis; white-space:nowrap; }
.meta { margin-left:auto; color:var(--muted); font:500 .7rem/1 ui-monospace,SFMono-Regular,Consolas,monospace; white-space:nowrap; }
button,.raw { min-height:2rem; padding:.45rem .65rem; border:1px solid var(--line); border-radius:.45rem; color:var(--ink); background:var(--surface); font:650 .72rem/1 ui-sans-serif,-apple-system,sans-serif; text-decoration:none; cursor:pointer; }
button:hover,.raw:hover { border-color:var(--accent); color:var(--accent); }
main { width:min(100% - 2rem,1280px); margin:clamp(1rem,4vw,3rem) auto; overflow:hidden; border:1px solid var(--line); border-radius:.85rem; background:var(--surface); box-shadow:0 22px 60px rgba(54,59,92,.08); }
pre { overflow:auto; min-height:calc(100vh - 12.4rem); margin:0; padding:1.1rem 0 2rem; counter-reset:line; tab-size:2; }
code { display:block; min-width:max-content; font:500 .84rem/1.3 ui-monospace,SFMono-Regular,Consolas,"Noto Sans Mono CJK SC",monospace; }
.line { display:block; min-height:1.3em; padding:0 1.25rem 0 0; white-space:pre; counter-increment:line; }
.line::before { position:sticky; left:0; display:inline-block; width:4.2rem; margin-right:1.2rem; border-right:1px solid var(--line); color:var(--muted); background:var(--gutter); content:counter(line); text-align:right; padding-right:1rem; user-select:none; }
.highlighted main { border-color:#252c3d; background:#10151f; box-shadow:0 25px 75px rgba(15,20,31,.24); }
.highlighted pre { background:radial-gradient(circle at 80% -20%,#202d42 0,transparent 34rem),#10151f; }
.highlighted code { font-weight:520; letter-spacing:.005em; }
.highlighted .line { transition:background .1s ease; }
.highlighted .line:hover { background:rgba(143,169,205,.055); }
.highlighted .line::before { border-color:#273044; color:#69758a; background:#0d121b; }
.highlighted .kind { color:#10151f; background:#9bcbb7; }
body.wrap code { min-width:0; }
body.wrap .line { position:relative; padding-left:5.4rem; white-space:pre-wrap; overflow-wrap:anywhere; }
body.wrap .line::before { position:absolute; top:0; bottom:0; left:0; height:auto; margin-right:0; }
#toast { position:fixed; right:1.2rem; bottom:1.2rem; padding:.65rem .85rem; border:1px solid var(--line); border-radius:.55rem; color:var(--ink); background:var(--surface); box-shadow:0 10px 35px rgba(0,0,0,.12); font-size:.78rem; opacity:0; transform:translateY(.5rem); transition:.18s ease; pointer-events:none; }
#toast.show { opacity:1; transform:none; }
:focus-visible { outline:3px solid color-mix(in srgb,var(--accent) 55%,transparent); outline-offset:2px; }
@media (max-width:700px) { :root { --file-header-padding:.65rem; } .meta { display:none; } header button { padding-inline:.5rem; } main { width:100%; margin:0; border-width:0; border-radius:0; box-shadow:none; } pre { min-height:calc(100vh - 6rem); } .line::before { width:3.4rem; margin-right:.8rem; } body.wrap .line { padding-left:4.2rem; } body.wrap .line::before { margin-right:0; } }
@media (prefers-color-scheme:dark) { :root { --paper:#11131b; --surface:#191c27; --ink:#edf0f7; --muted:#969daf; --line:#303545; --accent:#a9a5ff; --accent-soft:#292943; --gutter:#151822; } body { background-image:radial-gradient(circle at 50% -20%,#252943 0,transparent 38rem); } main { box-shadow:0 22px 60px rgba(0,0,0,.24); } }
@media (prefers-reduced-motion:reduce) { #toast { transition:none; } }
"#;

/// The script of the text viewer.
pub const TEXT_JS: &'static str = r#"
const toast = document.querySelector('#toast');
function notify(message) {
  toast.textContent = message;
  toast.classList.add('show');
  clearTimeout(notify.timer);
  notify.timer = setTimeout(() => toast.classList.remove('show'), 1300);
}
document.querySelector('#wrap').addEventListener('click', (event) => {
  const wrapped = document.body.classList.toggle('wrap');
  event.currentTarget.textContent = wrapped ? '取消换行' : '自动换行';
});
document.querySelector('#copy').addEventListener('click', async () => {
  try {
    const response = await fetch('?mode=raw');
    if (!response.ok) throw new Error();
    await navigator.clipboard.writeText(await response.text());
    notify('已复制原始文本');
  } catch (_) {
    notify('复制失败');
  }
});
"#;

/// The style of the Draw.io viewer.
pub const DRAWIO_CSS: &'static str = r#"
:root { --file-header-padding:max(1rem,calc((100vw - 1500px)/2)); color-scheme:light dark; --paper:#f7f8fc; --surface:#fff; --ink:#272a38; --muted:#73788b; --line:#dfe3ee; --accent:#5b5bd6; --accent-soft:#eeeeff; --grid:#e7e9f1; }
* { box-sizing:border-box; }
html,body { width:100%; min-height:100%; }
body { margin:0; color:var(--ink); background:var(--paper); font-family:Inter,ui-sans-serif,-apple-system,BlinkMacSystemFont,"Segoe UI","Noto Sans SC",sans-serif; }
header { position:sticky; top:0; z-index:3; display:flex; align-items:center; gap:.65rem; min-height:3.6rem; padding:.7rem var(--file-header-padding); border-bottom:1px solid var(--line); background:color-mix(in srgb,var(--paper) 90%,transparent); backdrop-filter:blur(16px); }
.back { display:grid; place-items:center; width:2rem; height:2rem; border-radius:.5rem; color:var(--muted); text-decoration:none; }
.back:hover { color:var(--accent); background:var(--accent-soft); }
.kind { flex:0 0 auto; padding:.28rem .5rem; border-radius:.35rem; color:white; background:var(--accent); font:750 .62rem/1 ui-monospace,SFMono-Regular,Consolas,monospace; letter-spacing:.05em; }
.filename { overflow:hidden; font:650 .82rem/1.2 ui-monospace,SFMono-Regular,Consolas,monospace; text-overflow:ellipsis; white-space:nowrap; }
.meta { margin-left:auto; color:var(--muted); font:500 .7rem/1 ui-monospace,SFMono-Regular,Consolas,monospace; white-space:nowrap; }
.raw { min-height:2rem; padding:.55rem .65rem; border:1px solid var(--line); border-radius:.45rem; color:var(--ink); background:var(--surface); font:650 .72rem/1 ui-sans-serif,-apple-system,sans-serif; text-decoration:none; }
.raw:hover { border-color:var(--accent); color:var(--accent); }
.canvas { position:relative; width:min(100% - 2rem,1500px); height:calc(100vh - 8rem); height:calc(100dvh - 8rem); min-height:22rem; margin:1rem auto; overflow:auto; border:1px solid var(--line); border-radius:.9rem; background-color:var(--surface); background-image:linear-gradient(var(--grid) 1px,transparent 1px),linear-gradient(90deg,var(--grid) 1px,transparent 1px); background-size:24px 24px; box-shadow:0 22px 60px rgba(54,59,92,.08); }
.mxgraph { min-width:100%; min-height:100%; padding:2rem; border:1px solid transparent; }
.viewer-status { position:absolute; inset:0; z-index:2; display:grid; place-content:center; justify-items:center; gap:.55rem; color:var(--ink); background:color-mix(in srgb,var(--surface) 88%,transparent); text-align:center; backdrop-filter:blur(4px); }
.viewer-status[hidden] { display:none; }
.viewer-status small { color:var(--muted); font:.65rem/1.2 ui-monospace,SFMono-Regular,Consolas,monospace; letter-spacing:.08em; text-transform:uppercase; }
.spinner { width:1.65rem; height:1.65rem; margin-bottom:.25rem; border:2px solid var(--line); border-top-color:var(--accent); border-radius:50%; animation:spin .7s linear infinite; }
.viewer-status.error .spinner { display:none; }
.viewer-status.error strong { color:#bd3e52; }
:focus-visible { outline:3px solid color-mix(in srgb,var(--accent) 55%,transparent); outline-offset:2px; }
@keyframes spin { to { transform:rotate(360deg); } }
@media (max-width:700px) { :root { --file-header-padding:.65rem; } .meta { display:none; } .canvas { width:100%; height:calc(100vh - 6rem); height:calc(100dvh - 6rem); margin:0; border-width:0; border-radius:0; } .mxgraph { padding:1rem; } }
@media (prefers-color-scheme:dark) { :root { --paper:#11131b; --surface:#191c27; --ink:#edf0f7; --muted:#969daf; --line:#303545; --accent:#a9a5ff; --accent-soft:#292943; --grid:#242936; } body { background-image:radial-gradient(circle at 50% -20%,#252943 0,transparent 38rem); } .canvas { box-shadow:0 22px 60px rgba(0,0,0,.24); } }
@media (prefers-reduced-motion:reduce) { .spinner { animation:none; } }
"#;

/// The script of the Draw.io viewer.
pub const DRAWIO_JS: &'static str = r#"
const viewerStatus = document.querySelector('#viewer-status');
window.RESOURCE_BASE = '/__webdir/drawio-assets';
window.STENCIL_PATH = '/__webdir/drawio-assets/stencils';
window.SHAPES_PATH = '/__webdir/drawio-assets/shapes';
window.IMAGE_PATH = '/__webdir/drawio-assets/images';
window.STYLE_PATH = '/__webdir/drawio-assets/styles';

function drawioViewerFailed() {
  viewerStatus.classList.add('error');
  viewerStatus.querySelector('strong').textContent = '无法渲染这个 Draw.io 文件';
  viewerStatus.querySelector('small').textContent = '可使用 Raw 查看原始 XML';
}

window.onDrawioViewerLoad = () => {
  try {
    GraphViewer.processElements();
    viewerStatus.hidden = true;
  } catch (_) {
    drawioViewerFailed();
  }
};
"#;

/// The style of Markdown pages and previews, part 1 of 6.
pub const MARKDOWN_CSS_1: &'static str = r#"
:root { --file-header-padding:max(1rem,calc((100vw - 1120px)/2)); color-scheme:light dark; --paper:#f7f8fc; --surface:#fff; --ink:#202333; --muted:#6d7287; --line:#dfe3ee; --accent:#5b5bd6; --accent-soft:#eeeeff; --code:#171925; --code-ink:#e8eaf2; --quote:#eef4ff; --comment:#fff1b8; --comment-line:#c89926; --addressed:#9b6b22; --success:#2f7d55; }
* { box-sizing:border-box; }
[hidden] { display:none !important; }
html { font-size:17px; scroll-padding-top:7.4rem; }
body { margin:0; padding-top:calc(3.4rem + 1px); color:var(--ink); background:var(--paper); font-family:Inter,ui-sans-serif,-apple-system,BlinkMacSystemFont,"Segoe UI","Noto Sans SC","PingFang SC",sans-serif; line-height:1.78; }
.topbar { position:fixed; inset:0 0 auto; z-index:4; display:flex; align-items:center; gap:.75rem; min-height:3.4rem; padding:.7rem var(--file-header-padding); border-bottom:1px solid color-mix(in srgb,var(--line) 75%,transparent); background:color-mix(in srgb,var(--paper) 88%,transparent); backdrop-filter:blur(16px); }
.home { display:grid; place-items:center; width:2rem; height:2rem; border-radius:.5rem; color:var(--muted); text-decoration:none; }
.home:hover { color:var(--accent); background:var(--accent-soft); }
.mark { display:grid; place-items:center; width:2rem; height:2rem; border-radius:.55rem; color:white; background:var(--accent); font:700 .68rem/1 ui-monospace,SFMono-Regular,Consolas,monospace; letter-spacing:-.04em; transform:rotate(-3deg); }
.filename { overflow:hidden; color:var(--muted); font:600 .8rem/1.2 ui-monospace,SFMono-Regular,Consolas,monospace; text-overflow:ellipsis; white-space:nowrap; }
.top-actions { display:flex; align-items:center; gap:.55rem; margin-left:auto; }
.button,.format-tools button { border:1px solid var(--line); border-radius:.5rem; color:white; background:var(--accent); font:650 .78rem/1 ui-sans-serif,-apple-system,sans-serif; cursor:pointer; }
.button { display:inline-grid; place-items:center; min-height:2rem; padding:.5rem .8rem; text-decoration:none; }
.button.ghost { color:var(--ink); background:var(--surface); }
.button.danger { border-color:#bd3e52; background:#bd3e52; }
.button:hover,.format-tools button:hover { filter:brightness(.96); transform:translateY(-1px); }
.button:active,.format-tools button:active { transform:translateY(1px); }
.identity-button { max-width:11rem; overflow:hidden; padding:.4rem .6rem; border:0; color:var(--muted); background:transparent; font:600 .72rem/1.2 ui-monospace,SFMono-Regular,Consolas,monospace; text-overflow:ellipsis; white-space:nowrap; cursor:pointer; }
.identity-button:hover { color:var(--accent); }
.review-toggle { display:inline-flex; align-items:center; gap:.3rem; }
.review-toggle b { min-width:1.15rem; padding:.12rem .3rem; border-radius:.3rem; color:var(--accent); background:var(--accent-soft); font:700 .64rem/1 ui-monospace,SFMono-Regular,Consolas,monospace; font-variant-numeric:tabular-nums; }
.reader-layout { display:grid; grid-template-areas:"toc paper review"; grid-template-columns:260px minmax(0,1100px) minmax(280px,340px); gap:1.5rem; width:min(100% - 2rem,1760px); margin:clamp(1.25rem,4vw,3.5rem) 1rem; }
body.review-closed .reader-layout { grid-template-areas:"toc paper"; grid-template-columns:260px minmax(0,1100px); width:min(100% - 2rem,1400px); }
body.review-closed .review-panel { display:none; }
main.paper { width:100%; margin:0; padding:clamp(1.25rem,5vw,4.6rem) clamp(1.25rem,3vw,3rem); border:1px solid var(--line); border-radius:1.1rem; background:var(--surface); box-shadow:0 24px 70px rgba(54,59,92,.09); }
#toc { grid-area:toc; position:sticky; top:7.4rem; align-self:start; max-height:calc(100vh - 9.4rem); overflow:auto; padding:.35rem; font-size:.74rem; }
main.paper { grid-area:paper; }
#toc:empty { display:none; }
#toc::before { display:block; margin:0 0 .7rem .55rem; color:var(--muted); content:"ON THIS PAGE"; font:700 .62rem/1 ui-monospace,SFMono-Regular,Consolas,monospace; letter-spacing:.1em; }
"#;

/// The style of Markdown pages and previews, part 2 of 6.
pub const MARKDOWN_CSS_2: &'static str = r#"#toc a { display:block; width:max-content; min-width:100%; padding:.35rem .55rem; border-left:1px solid var(--line); color:var(--muted); text-decoration:none; white-space:nowrap; }
#toc a[data-level="3"] { padding-left:1.15rem; }
#toc a:hover { border-color:var(--accent); color:var(--accent); }
article { max-width:1000px; margin:auto; }
h1,h2,h3,h4,h5,h6 { color:var(--ink); font-family:"Iowan Old Style","Noto Serif SC","Songti SC",Georgia,serif; line-height:1.25; letter-spacing:-.025em; text-wrap:balance; }
h1 { margin:0 0 1.4rem; font-size:clamp(2.15rem,7vw,4rem); }
h2 { margin:2.8rem 0 .9rem; padding-bottom:.45rem; border-bottom:1px solid var(--line); font-size:1.75rem; }
h3 { margin:2rem 0 .7rem; font-size:1.3rem; }
p,ul,ol,blockquote,pre,table { margin:0 0 1.25rem; }
a { color:var(--accent); text-decoration-thickness:.08em; text-underline-offset:.18em; }
a:hover { text-decoration-thickness:.15em; }
strong { color:var(--ink); }
blockquote { margin-left:0; padding:.9rem 1.1rem; border-left:4px solid var(--accent); border-radius:0 .65rem .65rem 0; color:var(--muted); background:var(--quote); }
blockquote > :last-child { margin-bottom:0; }
code { padding:.12rem .35rem; border:1px solid var(--line); border-radius:.35rem; color:#b33d72; background:var(--accent-soft); font:.88em/1.5 ui-monospace,SFMono-Regular,Consolas,monospace; }
pre { position:relative; overflow:auto; padding:1.2rem 1.35rem; border-radius:.8rem; background:var(--code); box-shadow:inset 0 1px rgba(255,255,255,.08); }
pre code { padding:0; border:0; color:var(--code-ink); background:transparent; font-size:.84rem; }
pre.mermaid-rendered { padding:2rem 1.5rem; background:var(--surface); border:1px solid var(--line); box-shadow:0 4px 18px rgba(40,46,75,.035); }
pre.mermaid-rendered > code { display:none; }
.mermaid-diagram { white-space:normal; text-align:center; line-height:1.5; }
.mermaid-diagram p { margin:0; }
.mermaid-diagram svg { display:block; max-width:100%; height:auto; margin:auto; }
.mermaid-error { margin-top:.75rem; color:var(--code-ink); white-space:pre-wrap; font:.8rem/1.5 ui-monospace,monospace; }
.copy-code { position:absolute; top:.55rem; right:.55rem; padding:.32rem .5rem; border:1px solid #34384a; border-radius:.35rem; color:#aeb4c7; background:#222533; font:600 .65rem/1 ui-monospace,SFMono-Regular,Consolas,monospace; cursor:pointer; opacity:0; }
pre:hover .copy-code,.copy-code:focus { opacity:1; }
table { display:block; overflow-x:auto; width:100%; border-spacing:0; border-collapse:collapse; }
th,td { padding:.65rem .8rem; border:1px solid var(--line); text-align:left; }
th { background:var(--accent-soft); font-size:.86rem; }
img { display:block; max-width:100%; height:auto; margin:1.75rem auto; border-radius:.65rem; }
hr { margin:2.5rem 0; border:0; border-top:1px solid var(--line); }
li + li { margin-top:.25rem; }
input[type="checkbox"] { width:1rem; height:1rem; margin-right:.45rem; accent-color:var(--accent); }
sup { line-height:0; }
:focus-visible { outline:3px solid color-mix(in srgb,var(--accent) 55%,transparent); outline-offset:3px; border-radius:.2rem; }
.source-run { border-radius:.15rem; transition:background .18s ease,box-shadow .18s ease; }
.source-run.has-review { background:color-mix(in srgb,var(--comment) 72%,transparent); box-shadow:0 0 0 2px color-mix(in srgb,var(--comment) 52%,transparent); cursor:pointer; }
.source-run.has-addressed-review { background:color-mix(in srgb,var(--accent-soft) 68%,transparent); box-shadow:0 0 0 2px color-mix(in srgb,var(--accent-soft) 52%,transparent); cursor:pointer; }
.source-run.review-target { background:color-mix(in srgb,var(--comment) 92%,var(--surface)); box-shadow:0 0 0 4px color-mix(in srgb,var(--comment-line) 38%,transparent); }
"#;

/// The style of Markdown pages and previews, part 3 of 6.
pub const MARKDOWN_CSS_3: &'static str = r#".review-panel { grid-area:review; position:sticky; top:7.05rem; align-self:start; display:flex; flex-direction:column; max-height:calc(100vh - 8.4rem); max-height:calc(100dvh - 8.4rem); overflow:hidden; border:1px solid var(--line); border-radius:.9rem; background:var(--surface); box-shadow:0 18px 50px rgba(54,59,92,.08); }
.review-header { display:flex; align-items:center; justify-content:space-between; padding:1rem 1rem .75rem; }
.review-header div { display:grid; gap:.32rem; }
.review-header span,.dialog-kicker { color:var(--accent); font:750 .6rem/1 ui-monospace,SFMono-Regular,Consolas,monospace; letter-spacing:.13em; }
.review-header strong { font:650 1rem/1.2 ui-sans-serif,-apple-system,sans-serif; }
.review-header button { display:none; width:2rem; height:2rem; padding:0; border:0; color:var(--muted); background:transparent; font-size:1.35rem; cursor:pointer; }
.review-file-actions { display:flex; flex-wrap:wrap; gap:.4rem; padding:0 1rem .75rem; }
.review-file-actions a,.review-file-actions button { padding:.35rem .5rem; border:1px solid var(--line); border-radius:.35rem; color:var(--muted); background:var(--surface); font:500 .7rem/1.4 ui-sans-serif,-apple-system,sans-serif; text-decoration:none; cursor:pointer; }
.review-file-actions a:hover,.review-file-actions button:hover { color:var(--accent); border-color:var(--accent); background:var(--accent-soft); }
.review-presence { display:flex; align-items:flex-start; gap:.5rem; min-height:2.15rem; padding:.55rem 1rem; border-block:1px solid var(--line); color:var(--muted); background:var(--paper); font-size:.7rem; line-height:1.45; }
.review-presence i { flex:0 0 auto; width:.45rem; height:.45rem; margin-top:.25rem; border-radius:50%; background:var(--success); box-shadow:0 0 0 .18rem color-mix(in srgb,var(--success) 14%,transparent); }
.document-comment { margin:.8rem 1rem 0; padding:.62rem .75rem; border:1px dashed color-mix(in srgb,var(--accent) 42%,var(--line)); border-radius:.55rem; color:var(--accent); background:var(--accent-soft); font:650 .75rem/1 ui-sans-serif,-apple-system,sans-serif; text-align:left; cursor:pointer; }
.document-comment:hover { border-style:solid; }
.review-composer { margin:.8rem 1rem 0; padding:.8rem; border-left:3px solid var(--accent); background:var(--paper); }
.review-composer p { max-height:4.5rem; overflow:auto; margin:0 0 .6rem; color:var(--muted); font:.68rem/1.45 ui-monospace,SFMono-Regular,Consolas,monospace; white-space:pre-wrap; }
.review-composer label { display:block; margin-bottom:.42rem; color:var(--ink); font-size:.72rem; font-weight:650; }
.review-composer textarea,.reply-box textarea { width:100%; resize:vertical; padding:.65rem; border:1px solid var(--line); border-radius:.45rem; color:var(--ink); background:var(--surface); font:500 .78rem/1.55 ui-sans-serif,-apple-system,sans-serif; }
.review-composer > div,.reply-box > div { display:flex; justify-content:flex-end; gap:.45rem; margin-top:.5rem; }
.text-button { padding:.45rem .55rem; border:0; color:var(--muted); background:transparent; font:650 .72rem/1 ui-sans-serif,-apple-system,sans-serif; cursor:pointer; }
.text-button:hover { color:var(--accent); }
.review-filters { display:grid; grid-template-columns:repeat(3,1fr); margin-top:.8rem; padding:0 1rem; border-bottom:1px solid var(--line); }
.review-filters button { display:flex; justify-content:center; gap:.25rem; padding:.65rem .2rem; border:0; border-bottom:2px solid transparent; color:var(--muted); background:transparent; font:600 .68rem/1 ui-sans-serif,-apple-system,sans-serif; cursor:pointer; }
.review-filters button.active { border-bottom-color:var(--accent); color:var(--accent); }
.review-filters b { font-variant-numeric:tabular-nums; }
.review-complete { display:grid; gap:.2rem; margin:.85rem 1rem 0; padding:.75rem; border-left:3px solid var(--success); color:var(--success); background:color-mix(in srgb,var(--success) 8%,var(--surface)); }
.review-complete strong { font-size:.78rem; }
"#;

/// The style of Markdown pages and previews, part 4 of 6.
pub const MARKDOWN_CSS_4: &'static str = r#".review-complete span { font-size:.7rem; }
.review-error { margin:.8rem 1rem 0; padding:.7rem; border-left:3px solid #bd3e52; color:#bd3e52; background:color-mix(in srgb,#bd3e52 8%,var(--surface)); font-size:.72rem; }
.comment-list { flex:1; overflow:auto; padding:.85rem 1rem 1rem; }
.comment-empty { padding:2.5rem .75rem; color:var(--muted); font-size:.76rem; text-align:center; }
.comment-card { padding:.85rem 0 1rem; border-bottom:1px solid var(--line); scroll-margin-top:1rem; }
.comment-card:first-child { padding-top:0; }
.comment-card:last-child { border-bottom:0; }
.comment-card.active { margin-inline:-.55rem; padding-inline:.55rem; background:var(--accent-soft); }
.comment-meta { display:flex; align-items:center; justify-content:space-between; gap:.5rem; margin-bottom:.55rem; }
.comment-status { color:var(--comment-line); font:750 .62rem/1 ui-monospace,SFMono-Regular,Consolas,monospace; letter-spacing:.05em; }
.comment-status.addressed { color:var(--addressed); }
.comment-status.resolved { color:var(--success); }
.comment-scope { overflow:hidden; margin:0 0 .65rem; padding:.48rem .6rem; border-left:2px solid var(--comment-line); color:var(--muted); background:color-mix(in srgb,var(--comment) 42%,var(--surface)); font:.68rem/1.5 ui-monospace,SFMono-Regular,Consolas,monospace; text-overflow:ellipsis; white-space:pre-wrap; }
.comment-scope.stale { border-left-color:#bd3e52; color:#a83a4c; background:color-mix(in srgb,#bd3e52 7%,var(--surface)); }
.message { display:grid; gap:.28rem; margin-top:.7rem; }
.message header { display:flex; justify-content:space-between; gap:.5rem; color:var(--muted); font-size:.63rem; }
.message header strong { overflow:hidden; color:var(--ink); font:650 .67rem/1.3 ui-monospace,SFMono-Regular,Consolas,monospace; text-overflow:ellipsis; white-space:nowrap; }
.message p { margin:0; color:var(--ink); font-size:.76rem; line-height:1.55; white-space:pre-wrap; overflow-wrap:anywhere; }
.message-tools { display:flex; gap:.2rem; margin-top:.18rem; }
.message-tools button { padding:.25rem .3rem; border:0; color:var(--muted); background:transparent; font:600 .62rem/1 ui-sans-serif,-apple-system,sans-serif; cursor:pointer; }
.message-tools button:hover { color:var(--accent); }
.message-tools button[data-confirming="true"] { color:#bd3e52; }
.message-editor { margin-top:.45rem; }
.message-editor textarea { width:100%; resize:vertical; padding:.55rem .6rem; border:1px solid var(--line); border-radius:.4rem; color:var(--ink); background:var(--surface); font:500 .75rem/1.5 ui-sans-serif,-apple-system,sans-serif; }
.message-editor div { display:flex; justify-content:flex-end; gap:.35rem; margin-top:.4rem; }
.comment-actions { display:flex; flex-wrap:wrap; gap:.35rem; margin-top:.8rem; }
.comment-actions button { padding:.4rem .52rem; border:1px solid var(--line); border-radius:.4rem; color:var(--muted); background:var(--surface); font:650 .67rem/1 ui-sans-serif,-apple-system,sans-serif; cursor:pointer; }
.comment-actions button.primary { border-color:var(--accent); color:white; background:var(--accent); }
.comment-actions button[data-confirming="true"] { border-color:#bd3e52; color:#bd3e52; }
.reply-box { margin-top:.65rem; }
.selection-comment { position:fixed; z-index:8; padding:.55rem .7rem; border:1px solid color-mix(in srgb,var(--accent) 55%,var(--line)); border-radius:.5rem; color:white; background:var(--accent); box-shadow:0 10px 28px rgba(54,59,92,.22); font:650 .72rem/1 ui-sans-serif,-apple-system,sans-serif; cursor:pointer; transform:translate(-50%,-100%); }
.toast { position:fixed; z-index:10; right:1rem; bottom:1rem; max-width:min(24rem,calc(100vw - 2rem)); padding:.7rem .9rem; border:1px solid var(--line); border-radius:.55rem; color:var(--ink); background:var(--surface); box-shadow:0 16px 45px rgba(54,59,92,.18); font-size:.75rem; }
"#;

/// The style of Markdown pages and previews, part 5 of 6.
pub const MARKDOWN_CSS_5: &'static str = r#".identity-dialog { width:min(92vw,430px); padding:0; border:1px solid var(--line); border-radius:1rem; color:var(--ink); background:var(--surface); box-shadow:0 28px 90px rgba(35,38,61,.24); }
.identity-dialog::backdrop { background:rgba(20,22,34,.52); backdrop-filter:blur(5px); }
.identity-dialog form { display:grid; gap:.8rem; padding:1.5rem; }
.identity-dialog h2 { margin:0; padding:0; border:0; font:650 1.35rem/1.25 ui-sans-serif,-apple-system,sans-serif; }
.identity-dialog p { margin:0; color:var(--muted); font-size:.78rem; line-height:1.6; }
.identity-dialog label { margin-top:.25rem; font-size:.72rem; font-weight:650; }
.identity-dialog input { width:100%; padding:.72rem .8rem; border:1px solid var(--line); border-radius:.5rem; color:var(--ink); background:var(--paper); font:550 .82rem/1 ui-monospace,SFMono-Regular,Consolas,monospace; }
.identity-error { min-height:1em; color:#bd3e52; font-size:.68rem; }
.editor-shell { display:flex; flex-direction:column; height:calc(100vh - 5.8rem); height:calc(100dvh - 5.8rem); overflow:hidden; background:var(--surface); }
.editor-toolbar { display:flex; flex:0 0 auto; align-items:center; gap:.6rem; min-height:3.5rem; padding:.6rem max(1rem,calc((100vw - 1400px)/2)); border-bottom:1px solid var(--line); }
.format-tools { display:flex; gap:.3rem; overflow-x:auto; }
.format-tools button { flex:0 0 auto; width:2rem; height:2rem; padding:0; color:var(--ink); background:var(--paper); }
.collaboration-status { display:flex; align-items:center; gap:.42rem; margin-left:auto; color:var(--muted); font-size:.75rem; white-space:nowrap; }
#connection-dot { width:.5rem; height:.5rem; border-radius:50%; background:#9aa0b3; box-shadow:0 0 0 .2rem color-mix(in srgb,#9aa0b3 15%,transparent); }
#connection-dot.connected { background:#3b9b67; box-shadow:0 0 0 .2rem color-mix(in srgb,#3b9b67 16%,transparent); }
#connection-dot.error { background:#bd3e52; box-shadow:0 0 0 .2rem color-mix(in srgb,#bd3e52 16%,transparent); }
#presence::before { content:"·"; margin-right:.42rem; }
.editor-panes { display:grid; flex:1 1 auto; grid-template-columns:minmax(0,1fr) minmax(0,1fr); min-height:0; }
.pane { display:grid; grid-template-rows:2rem 1fr; min-width:0; min-height:0; margin:0; }
.pane > span { padding:.7rem 1rem; color:var(--muted); background:var(--paper); font:700 .62rem/1 ui-monospace,SFMono-Regular,Consolas,monospace; letter-spacing:.12em; }
.preview-pane { border-right:1px solid var(--line); }
#source { width:100%; height:100%; resize:none; padding:1.25rem clamp(1rem,3vw,2rem); border:0; outline:0; color:var(--ink); background:var(--surface); font:500 .9rem/1.75 ui-monospace,SFMono-Regular,Consolas,"Noto Sans Mono CJK SC",monospace; tab-size:2; }
#source:disabled { color:var(--muted); cursor:wait; }
#preview { width:100%; height:100%; border:0; background:var(--paper); }
.preview-body { min-height:100vh; }
main.preview-paper { width:100%; margin:0; padding:2rem; border:0; border-radius:0; box-shadow:none; }
.sync-anchor { display:block; overflow:hidden; width:0; height:0; pointer-events:none; }
body.editing { overflow:hidden; }
@media (max-width:1180px) { .reader-layout { grid-template-areas:"paper review"; grid-template-columns:minmax(0,820px) minmax(280px,340px); width:min(100% - 2rem,1180px); } body.review-closed .reader-layout { grid-template-areas:"paper"; grid-template-columns:minmax(0,1100px); width:min(100% - 2rem,1100px); } #toc { display:none; } }
@media (max-width:900px) { .reader-layout,body.review-closed .reader-layout { display:block; width:min(100% - 2rem,820px); } .review-panel { position:fixed; z-index:7; top:calc(5.8rem + 1px); right:0; bottom:0; width:min(92vw,370px); max-height:none; border-radius:0; transform:translateX(0); transition:transform .22s ease; } body.review-closed .review-panel { display:flex; transform:translateX(100%); pointer-events:none; } .review-header button { display:block; } }
"#;

/// The style of Markdown pages and previews, part 6 of 6.
pub const MARKDOWN_CSS_6: &'static str = r#"@media (max-width:700px) { html { font-size:16px; } .reader-layout,body.review-closed .reader-layout { width:100%; margin:0; } main.paper { padding:1.5rem 1rem 3rem; border-width:0; border-radius:0; box-shadow:none; } :root { --file-header-padding:.7rem; } .mark,.identity-button,.raw-button { display:none; } .editor-panes { grid-template-columns:1fr; grid-template-rows:1fr 1fr; } .preview-pane { border-right:0; border-bottom:1px solid var(--line); } .collaboration-status { margin-left:auto; } #save-status { display:none; } }
@media (hover:none) and (pointer:coarse) { .selection-comment { top:auto !important; bottom:max(1rem,calc(env(safe-area-inset-bottom) + .5rem)); left:50% !important; min-height:2.75rem; padding:.7rem 1rem; transform:translateX(-50%); } }
@media (prefers-color-scheme:dark) { :root { --paper:#11131b; --surface:#191c27; --ink:#edf0f7; --muted:#a7adbd; --line:#303545; --accent:#a9a5ff; --accent-soft:#292943; --code:#0d0f16; --code-ink:#e7e9f3; --quote:#20283a; --comment:#5d4b20; --comment-line:#d9ad43; --addressed:#e0ae63; --success:#6fc394; } body { background-image:radial-gradient(circle at 50% -20%,#252943 0,transparent 38rem); } code { color:#f2a7ca; } main { box-shadow:0 24px 70px rgba(0,0,0,.25); } }
@media (prefers-reduced-motion:no-preference) { main.paper { animation:arrive .35s ease-out both; } @keyframes arrive { from { opacity:0; transform:translateY(8px); } } }
"#;

/// The style of the breadcrumbs added to file pages.
pub const FILE_NAVIGATION_CSS: &'static str = r#"
body { padding-top:2.4rem; }
body:has(> .topbar) { padding-top:calc(5.8rem + 1px); }
body > header,.topbar { top:2.4rem; }
.file-breadcrumbs { position:fixed; inset:0 0 auto; z-index:8; display:flex; align-items:center; gap:.55rem; height:2.4rem; padding:0 var(--file-header-padding); color:var(--muted); background:var(--paper); border-bottom:1px solid var(--line); font:600 .78rem/1.4 ui-monospace,SFMono-Regular,Consolas,monospace; scrollbar-width:none; }
.file-breadcrumbs > a,.file-breadcrumbs > span { flex-shrink:0; }
.file-breadcrumbs a { color:inherit; text-decoration:none; white-space:nowrap; }
.file-breadcrumbs > a:last-child { flex-shrink:1; min-width:0; overflow:hidden; text-overflow:ellipsis; }
.file-breadcrumbs.measuring > a:last-child { flex-shrink:0; }
.file-breadcrumbs [hidden] { display:none !important; }
.file-breadcrumbs a:hover { color:var(--accent); }
#history-back { flex:0 0 2rem; padding:0; border:0; background:transparent; font:inherit; cursor:pointer; }
#history-back:hover { color:var(--accent); background:var(--accent-soft); }
.breadcrumb-overflow { display:flex; align-items:center; gap:.55rem; }
.breadcrumb-overflow details { position:relative; }
.breadcrumb-overflow summary { padding:.1rem .35rem; border-radius:.3rem; color:var(--accent); cursor:pointer; list-style:none; }
.breadcrumb-overflow summary::-webkit-details-marker { display:none; }
.breadcrumb-overflow summary:hover,.breadcrumb-overflow details[open] summary { background:var(--accent-soft); }
.breadcrumb-menu { position:absolute; top:calc(100% + .4rem); left:0; display:grid; min-width:8rem; width:max-content; max-width:min(24rem,calc(100vw - 8rem)); max-height:60vh; overflow:auto; padding:.35rem; border:1px solid var(--line); border-radius:.5rem; background:var(--surface); box-shadow:0 8px 24px rgba(0,0,0,.12); }
.breadcrumb-menu a { overflow:hidden; padding:.5rem .65rem; text-overflow:ellipsis; border-radius:.3rem; }
.breadcrumb-menu a:hover { background:var(--accent-soft); }
"#;

/// The gallery's tools for sorting out images.
pub const GALLERY_ORGANISE_TOOLS: &'static str = r#"
<div class="gallery-organise" id="gallery-organise" role="group" aria-label="整理当前目录的已点赞图片">
  <span class="organise-label">整理到</span>
  <button type="button" data-move-images="favourites" title="将当前目录全部已点赞图片移入 favourites/" aria-label="将全部已点赞图片移入 favourites 目录"><span class="organise-heart" aria-hidden="true">♥</span> favourites <span class="organise-arrow" aria-hidden="true">↗</span></button>
  <button id="deletion-filter" type="button" aria-pressed="false"><span id="deletion-filter-label">查看待删除列表</span> <span id="deletion-count">0</span></button>
  <button id="delete-marked-images" class="delete-marked-images" type="button" hidden>删除所有已标记图片</button>
  <button id="clear-deletion-marks" type="button" hidden>取消所有删除标记</button>
</div>
"#;

/// The dialog that confirms deleting an image.
pub const GALLERY_DELETE_DIALOG: &'static str = r#"
<dialog class="delete-dialog" id="delete-dialog" aria-labelledby="delete-title" aria-describedby="delete-description">
  <h2 id="delete-title">删除这张图片？</h2>
  <p class="delete-name" id="delete-name"></p>
  <p id="delete-description">图片将从磁盘中删除，此操作无法撤销。</p>
  <p class="delete-error" id="delete-error" role="alert" hidden></p>
  <div class="delete-actions"><button id="delete-cancel" type="button" autofocus>取消</button><button id="delete-confirm" type="button">删除图片</button></div>
</dialog>
"#;

/// The dialog that confirms deleting the marked images.
pub const GALLERY_MARKED_DELETE_DIALOG: &'static str = r#"
<dialog class="delete-dialog" id="delete-marked-dialog" aria-labelledby="delete-marked-title" aria-describedby="delete-marked-description">
  <h2 id="delete-marked-title">删除所有已标记图片？</h2>
  <p id="delete-marked-description">当前文件夹中所有标记为待删除的图片都将从磁盘中删除，此操作无法撤销。</p>
  <p class="delete-error" id="delete-marked-error" role="alert" hidden></p>
  <div class="delete-actions"><button id="delete-marked-cancel" type="button" autofocus>取消</button><button id="delete-marked-confirm" type="button">全部删除</button></div>
</dialog>
"#;

} // verus!
