//! Bookkeeping of the print-to-PDF pipeline.
//!
//! A print request assembles an HTML document from a fixed template, writes
//! it to a per-job file in a bounded temp directory (oldest files evicted
//! first), opens a hidden render surface on it, triggers the native print
//! dialog after a fixed render delay, and tears the surface down after a
//! second, generous delay.  The host performs the file, window and timer
//! operations; the names, the eviction choice and the lifecycle transitions
//! are decided here.

use vstd::prelude::*;
use vstd::string::StringExecFns;

verus! {

broadcast use vstd::seq_lib::group_to_multiset_ensures;

/// Name of the per-application directory for print temp files, under the
/// system temp directory.
pub const PRINT_TEMP_DIR: &'static str = ".markdowner_print";

/// Most print temp files retained; before a new one is written, older files
/// are evicted until fewer than this many remain.
pub const PRINT_MAX_FILES: usize = 10;

/// Fixed delay, in milliseconds, between opening the render surface and
/// triggering the print dialog: long enough for the document's script-driven
/// rendering to complete.
pub const RENDER_WAIT_MS: u64 = 2500;

/// Fixed delay, in seconds, between triggering the print dialog and tearing
/// the surface down: a heuristic for "the user is done with the dialog", not
/// a correctness mechanism.
pub const DIALOG_WAIT_SECS: u64 = 300;

/// Whether a character counts as alphanumeric under Unicode.
pub uninterp spec fn unicode_alphanumeric(c: char) -> bool;

/// Relies on char::is_alphanumeric: classifies one character by the Unicode
/// properties Alphabetic, Nd, Nl and No; a function of the character alone.
#[verifier::external_body]
fn char_is_alphanumeric(c: char) -> (r: bool)
    ensures
        r == unicode_alphanumeric(c),
{
    c.is_alphanumeric()
}

/// Relies on String::push: appends one character at the end.
#[verifier::external_body]
fn push_char(s: &mut String, c: char)
    ensures
        final(s)@ == old(s)@.push(c),
{
    s.push(c);
}

/// A print title turned into a filename stem: alphanumeric characters kept,
/// every other character (spaces included) replaced by an underscore.
pub open spec fn sanitized_title(s: Seq<char>) -> Seq<char> {
    Seq::new(
        s.len(),
        |i: int|
            if unicode_alphanumeric(s[i]) {
                s[i]
            } else {
                '_'
            },
    )
}

/// Sanitizes a print title for use in a filename, keeping alphanumeric
/// characters and replacing everything else by underscores, so that titles
/// cannot smuggle separators or other special characters into the path.
pub fn sanitize_title(title: &str) -> (r: String)
    ensures
        r@ == sanitized_title(title@),
{
    let n = title.unicode_len();
    let mut out = String::new();
    let mut i: usize = 0;
    while i < n
        invariant
            i <= n,
            n == title@.len(),
            out@ == sanitized_title(title@).take(i as int),
        decreases n - i,
    {
        let c = title.get_char(i);
        if char_is_alphanumeric(c) {
            push_char(&mut out, c);
        } else {
            push_char(&mut out, '_');
        }
        proof {
            assert(out@ =~= sanitized_title(title@).take(i + 1));
        }
        i += 1;
    }
    proof {
        assert(sanitized_title(title@).take(n as int) =~= sanitized_title(title@));
    }
    out
}

/// The decimal digit for a value below ten.
pub open spec fn digit_char(d: int) -> char {
    if d == 0 {
        '0'
    } else if d == 1 {
        '1'
    } else if d == 2 {
        '2'
    } else if d == 3 {
        '3'
    } else if d == 4 {
        '4'
    } else if d == 5 {
        '5'
    } else if d == 6 {
        '6'
    } else if d == 7 {
        '7'
    } else if d == 8 {
        '8'
    } else {
        '9'
    }
}

/// The usual decimal notation of a nonnegative integer, no leading zeros.
pub open spec fn decimal_digits(n: int) -> Seq<char>
    decreases n,
{
    if n < 10 {
        seq![digit_char(n)]
    } else {
        decimal_digits(n / 10).push(digit_char(n % 10))
    }
}

fn digit_to_char(d: u64) -> (c: char)
    requires
        d < 10,
    ensures
        c == digit_char(d as int),
{
    match d {
        0 => '0',
        1 => '1',
        2 => '2',
        3 => '3',
        4 => '4',
        5 => '5',
        6 => '6',
        7 => '7',
        8 => '8',
        _ => '9',
    }
}

/// Writes an integer in decimal, as the timestamps in filenames and window
/// labels are.
pub fn u64_to_decimal(n: u64) -> (r: String)
    ensures
        r@ == decimal_digits(n as int),
    decreases n,
{
    if n < 10 {
        let mut s = String::new();
        push_char(&mut s, digit_to_char(n));
        proof {
            assert(s@ =~= seq![digit_char(n as int)]);
        }
        s
    } else {
        let mut s = u64_to_decimal(n / 10);
        push_char(&mut s, digit_to_char(n % 10));
        s
    }
}

/// The name of the temp file for a print job: the sanitized title and the
/// job's timestamp, so that concurrent jobs with equal titles collide only
/// within one second.
pub open spec fn print_file_name_spec(title: Seq<char>, timestamp: int) -> Seq<char> {
    sanitized_title(title) + seq!['_'] + decimal_digits(timestamp) + ".html"@
}

/// Builds the per-job temp-file name from the print title and the job's
/// timestamp.
pub fn print_file_name(title: &str, timestamp: u64) -> (r: String)
    ensures
        r@ == print_file_name_spec(title@, timestamp as int),
{
    let mut s = sanitize_title(title);
    push_char(&mut s, '_');
    let digits = u64_to_decimal(timestamp);
    s.append(digits.as_str());
    s.append(".html");
    proof {
        assert(s@ =~= print_file_name_spec(title@, timestamp as int));
    }
    s
}

/// The label of the hidden render surface for a print job.
pub open spec fn window_label_spec(timestamp: int) -> Seq<char> {
    "print-hidden-"@ + decimal_digits(timestamp)
}

/// Builds the unique window label for a print job from its timestamp.
pub fn print_window_label(timestamp: u64) -> (r: String)
    ensures
        r@ == window_label_spec(timestamp as int),
{
    let mut s = String::from_str("print-hidden-");
    let digits = u64_to_decimal(timestamp);
    s.append(digits.as_str());
    proof {
        assert(s@ =~= window_label_spec(timestamp as int));
    }
    s
}

/// Frames a local path as the `file://` URL the render surface is pointed
/// at.
pub fn file_url_of(path: &str) -> (r: String)
    ensures
        r@ == "file://"@ + path@,
{
    let mut s = String::from_str("file://");
    s.append(path);
    s
}

/// The fixed document template's part before the title.
pub open spec fn print_doc_head() -> Seq<char> {
    r#"<!DOCTYPE html>
<html lang="en">
<head>
  <meta charset="UTF-8">
  <meta name="viewport" content="width=device-width, initial-scale=1.0">
  <title>"#@
}

/// The fixed document template's part between the title and the rendered
/// content.
pub open spec fn print_doc_mid() -> Seq<char> {
    r#"</title>
  <link rel="stylesheet" href="https://cdn.jsdelivr.net/npm/katex@0.16.9/dist/katex.min.css">
  <script defer src="https://cdn.jsdelivr.net/npm/katex@0.16.9/dist/katex.min.js"></script>
  <script defer src="https://cdn.jsdelivr.net/npm/katex@0.16.9/dist/contrib/auto-render.min.js"></script>
  <script src="https://cdn.jsdelivr.net/npm/mermaid@10/dist/mermaid.min.js"></script>
  <style>
      @page {
          margin: 2cm;
      }
      body {
          font-family: -apple-system, BlinkMacSystemFont, 'Segoe UI', Roboto, Oxygen, Ubuntu, sans-serif;
          font-size: 12pt;
          line-height: 1.6;
          color: #333;
          max-width: 100%;
          margin: 0;
          padding: 20px;
      }
      h1, h2, h3 {
          page-break-after: avoid;
      }
      pre, blockquote, table, figure, img {
          page-break-inside: avoid;
      }
      pre {
          background-color: #f5f5f5;
          padding: 12px;
          border-radius: 4px;
          overflow-x: auto;
          white-space: pre-wrap;
          word-wrap: break-word;
          border: 1px solid #ddd;
      }
      code {
          background-color: #f3f4f6;
          padding: 2px 6px;
          border-radius: 3px;
          font-family: 'SF Mono', Monaco, Inconsolata, 'Fira Code', monospace;
          font-size: 0.9em;
      }
      pre code {
          background-color: transparent;
          padding: 0;
      }
      blockquote {
          border-left: 4px solid #2563eb;
          padding-left: 16px;
          margin: 16px 0;
          color: #666;
          font-style: italic;
      }
      table {
          width: 100%;
          border-collapse: collapse;
          margin: 16px 0;
      }
      th, td {
          border: 1px solid #e0e0e0;
          padding: 8px 12px;
          text-align: left;
      }
      th {
          background-color: #f9fafb;
          font-weight: 600;
      }
      img {
          max-width: 100%;
          height: auto;
      }
      a[href]::after {
          content: " (" attr(href) ")";
          font-size: 90%;
          color: #666;
      }
      .mermaid-container {
          text-align: center;
          margin: 16px 0;
      }
      .math-display {
          margin: 16px 0;
          text-align: center;
      }
  </style>
</head>
<body>
  <div class="markdown-content">
      "#@
}

/// The fixed document template's part after the rendered content.
pub open spec fn print_doc_tail() -> Seq<char> {
    r#"
  </div>
  <script>
    // Initialize Mermaid
    mermaid.initialize({
      startOnLoad: false,
      theme: 'default',
      securityLevel: 'strict'
    });

    // Simple hash function for mermaid diagrams
    function hashString(str) {
      let hash = 0;
      for (let i = 0; i < str.length; i++) {
        const char = str.charCodeAt(i);
        hash = (hash << 5) - hash + char;
        hash = hash & hash;
      }
      return Math.abs(hash).toString(36);
    }

    // Render mermaid diagrams
    async function renderMermaidDiagrams() {
      const mermaidBlocks = document.querySelectorAll('pre code.language-mermaid');
      for (const block of mermaidBlocks) {
        const code = block.textContent || '';
        const id = 'mermaid-' + hashString(code);
        const pre = block.parentElement;
        if (!pre) continue;

        try {
          const { svg } = await mermaid.render(id + '-svg', code);
          const container = document.createElement('div');
          container.id = id;
          container.className = 'mermaid-container';
          container.innerHTML = svg;
          pre.parentElement?.replaceChild(container, pre);
        } catch (error) {
          console.error('Failed to render mermaid diagram:', error);
          pre.classList.add('mermaid-error');
        }
      }
    }

    // Render math expressions using KaTeX
    function renderMath() {
      if (typeof renderMathInElement === 'undefined') {
        setTimeout(renderMath, 100);
        return;
      }
      
      renderMathInElement(document.body, {
        delimiters: [
          {left: '$$', right: '$$', display: true},
          {left: '$', right: '$', display: false}
        ],
        throwOnError: false,
        errorColor: '#cc0000'
      });

      const inlineMathElements = document.querySelectorAll('.math-inline');
      inlineMathElements.forEach(el => {
        const mathContent = decodeURIComponent(el.getAttribute('data-math') || '');
        if (mathContent && typeof katex !== 'undefined') {
          try {
            katex.render(mathContent, el, { throwOnError: false, displayMode: false });
          } catch (e) {
            console.error('Failed to render inline math:', e);
          }
        }
      });

      const displayMathElements = document.querySelectorAll('.math-display');
      displayMathElements.forEach(el => {
        const mathContent = decodeURIComponent(el.getAttribute('data-math') || '');
        if (mathContent && typeof katex !== 'undefined') {
          try {
            katex.render(mathContent, el, { throwOnError: false, displayMode: true });
          } catch (e) {
            console.error('Failed to render display math:', e);
          }
        }
      });
    }

    // Initialize everything when DOM is ready
    document.addEventListener('DOMContentLoaded', async () => {
      await renderMermaidDiagrams();
      renderMath();
      // Notify that content is ready for printing
      document.body.setAttribute('data-ready', 'true');
    });

    // Signal that we're ready for the print dialog
    window.addEventListener('load', function() {
      console.log('[PRINT] Window loaded and ready');
    });
  </script>
</body>
</html>"#@
}

/// The document a print job renders: the title and the supplied content
/// inlined into the fixed template.
pub open spec fn print_document_spec(title: Seq<char>, content: Seq<char>) -> Seq<char> {
    print_doc_head() + title + print_doc_mid() + content + print_doc_tail()
}

/// Assembles the HTML document for a print job: the title goes into the
/// document head, the rendered content into the body of the fixed template.
pub fn compose_print_document(title: &str, content: &str) -> (r: String)
    ensures
        r@ == print_document_spec(title@, content@),
{
    let mut s = String::from_str(
        r#"<!DOCTYPE html>
<html lang="en">
<head>
  <meta charset="UTF-8">
  <meta name="viewport" content="width=device-width, initial-scale=1.0">
  <title>"#,
    );
    s.append(title);
    s.append(
        r#"</title>
  <link rel="stylesheet" href="https://cdn.jsdelivr.net/npm/katex@0.16.9/dist/katex.min.css">
  <script defer src="https://cdn.jsdelivr.net/npm/katex@0.16.9/dist/katex.min.js"></script>
  <script defer src="https://cdn.jsdelivr.net/npm/katex@0.16.9/dist/contrib/auto-render.min.js"></script>
  <script src="https://cdn.jsdelivr.net/npm/mermaid@10/dist/mermaid.min.js"></script>
  <style>
      @page {
          margin: 2cm;
      }
      body {
          font-family: -apple-system, BlinkMacSystemFont, 'Segoe UI', Roboto, Oxygen, Ubuntu, sans-serif;
          font-size: 12pt;
          line-height: 1.6;
          color: #333;
          max-width: 100%;
          margin: 0;
          padding: 20px;
      }
      h1, h2, h3 {
          page-break-after: avoid;
      }
      pre, blockquote, table, figure, img {
          page-break-inside: avoid;
      }
      pre {
          background-color: #f5f5f5;
          padding: 12px;
          border-radius: 4px;
          overflow-x: auto;
          white-space: pre-wrap;
          word-wrap: break-word;
          border: 1px solid #ddd;
      }
      code {
          background-color: #f3f4f6;
          padding: 2px 6px;
          border-radius: 3px;
          font-family: 'SF Mono', Monaco, Inconsolata, 'Fira Code', monospace;
          font-size: 0.9em;
      }
      pre code {
          background-color: transparent;
          padding: 0;
      }
      blockquote {
          border-left: 4px solid #2563eb;
          padding-left: 16px;
          margin: 16px 0;
          color: #666;
          font-style: italic;
      }
      table {
          width: 100%;
          border-collapse: collapse;
          margin: 16px 0;
      }
      th, td {
          border: 1px solid #e0e0e0;
          padding: 8px 12px;
          text-align: left;
      }
      th {
          background-color: #f9fafb;
          font-weight: 600;
      }
      img {
          max-width: 100%;
          height: auto;
      }
      a[href]::after {
          content: " (" attr(href) ")";
          font-size: 90%;
          color: #666;
      }
      .mermaid-container {
          text-align: center;
          margin: 16px 0;
      }
      .math-display {
          margin: 16px 0;
          text-align: center;
      }
  </style>
</head>
<body>
  <div class="markdown-content">
      "#,
    );
    s.append(content);
    s.append(
        r#"
  </div>
  <script>
    // Initialize Mermaid
    mermaid.initialize({
      startOnLoad: false,
      theme: 'default',
      securityLevel: 'strict'
    });

    // Simple hash function for mermaid diagrams
    function hashString(str) {
      let hash = 0;
      for (let i = 0; i < str.length; i++) {
        const char = str.charCodeAt(i);
        hash = (hash << 5) - hash + char;
        hash = hash & hash;
      }
      return Math.abs(hash).toString(36);
    }

    // Render mermaid diagrams
    async function renderMermaidDiagrams() {
      const mermaidBlocks = document.querySelectorAll('pre code.language-mermaid');
      for (const block of mermaidBlocks) {
        const code = block.textContent || '';
        const id = 'mermaid-' + hashString(code);
        const pre = block.parentElement;
        if (!pre) continue;

        try {
          const { svg } = await mermaid.render(id + '-svg', code);
          const container = document.createElement('div');
          container.id = id;
          container.className = 'mermaid-container';
          container.innerHTML = svg;
          pre.parentElement?.replaceChild(container, pre);
        } catch (error) {
          console.error('Failed to render mermaid diagram:', error);
          pre.classList.add('mermaid-error');
        }
      }
    }

    // Render math expressions using KaTeX
    function renderMath() {
      if (typeof renderMathInElement === 'undefined') {
        setTimeout(renderMath, 100);
        return;
      }
      
      renderMathInElement(document.body, {
        delimiters: [
          {left: '$$', right: '$$', display: true},
          {left: '$', right: '$', display: false}
        ],
        throwOnError: false,
        errorColor: '#cc0000'
      });

      const inlineMathElements = document.querySelectorAll('.math-inline');
      inlineMathElements.forEach(el => {
        const mathContent = decodeURIComponent(el.getAttribute('data-math') || '');
        if (mathContent && typeof katex !== 'undefined') {
          try {
            katex.render(mathContent, el, { throwOnError: false, displayMode: false });
          } catch (e) {
            console.error('Failed to render inline math:', e);
          }
        }
      });

      const displayMathElements = document.querySelectorAll('.math-display');
      displayMathElements.forEach(el => {
        const mathContent = decodeURIComponent(el.getAttribute('data-math') || '');
        if (mathContent && typeof katex !== 'undefined') {
          try {
            katex.render(mathContent, el, { throwOnError: false, displayMode: true });
          } catch (e) {
            console.error('Failed to render display math:', e);
          }
        }
      });
    }

    // Initialize everything when DOM is ready
    document.addEventListener('DOMContentLoaded', async () => {
      await renderMermaidDiagrams();
      renderMath();
      // Notify that content is ready for printing
      document.body.setAttribute('data-ready', 'true');
    });

    // Signal that we're ready for the print dialog
    window.addEventListener('load', function() {
      console.log('[PRINT] Window loaded and ready');
    });
  </script>
</body>
</html>"#,
    );
    s
}

/// A print temp file as the eviction pass sees it: its name and its
/// modification time.
pub struct PrintFileStamp {
    /// File name within the print temp directory.
    pub name: String,
    /// Modification time, in seconds since the epoch.
    pub modified: u64,
}

/// How many files the eviction pass leaves in the print temp directory
/// before a new file is written: everything when fewer than the cap are
/// there, one below the cap otherwise.
pub open spec fn evict_keep_count(n: int) -> int {
    if n < PRINT_MAX_FILES {
        n
    } else {
        PRINT_MAX_FILES - 1
    }
}

/// Picks the files to delete before a new print file is written: the oldest
/// files leave, one at a time, until fewer than [`PRINT_MAX_FILES`] remain.
/// `files` keeps the survivors; the evicted stamps are returned for the host
/// to unlink.  Every evicted file is at least as old as every survivor, and
/// nothing is lost or invented.
pub fn evict_oldest(files: &mut Vec<PrintFileStamp>) -> (removed: Vec<PrintFileStamp>)
    ensures
        final(files)@.len() == evict_keep_count(old(files)@.len() as int),
        removed@.len() + final(files)@.len() == old(files)@.len(),
        final(files)@.to_multiset().add(removed@.to_multiset()) == old(files)@.to_multiset(),
        forall|i: int, j: int|
            0 <= i < removed@.len() && 0 <= j < final(files)@.len() ==> removed@[i].modified
                <= final(files)@[j].modified,
{
    let ghost orig: Seq<PrintFileStamp> = files@;
    let mut removed: Vec<PrintFileStamp> = Vec::new();
    proof {
        assert(files@.to_multiset().add(removed@.to_multiset()) =~= orig.to_multiset());
    }
    while files.len() >= PRINT_MAX_FILES
        invariant
            removed@.len() + files@.len() == orig.len(),
            files@.len() >= evict_keep_count(orig.len() as int),
            files@.to_multiset().add(removed@.to_multiset()) == orig.to_multiset(),
            forall|i: int, j: int|
                0 <= i < removed@.len() && 0 <= j < files@.len() ==> removed@[i].modified
                    <= files@[j].modified,
        decreases files@.len(),
    {
        let mut min_i: usize = 0;
        let mut j: usize = 1;
        while j < files.len()
            invariant
                files@.len() >= PRINT_MAX_FILES,
                min_i < j,
                j <= files@.len(),
                forall|k: int| 0 <= k < j ==> files@[min_i as int].modified <= files@[k].modified,
            decreases files@.len() - j,
        {
            if files[j].modified < files[min_i].modified {
                min_i = j;
            }
            j += 1;
        }
        let ghost before = files@;
        let ghost removed_before = removed@;
        let oldest = files.remove(min_i);
        removed.push(oldest);
        proof {
            assert(before.remove(min_i as int).to_multiset() =~= before.to_multiset().remove(
                before[min_i as int],
            ));
            assert(removed@.to_multiset() =~= removed_before.to_multiset().insert(
                before[min_i as int],
            ));
            assert(files@.to_multiset().add(removed@.to_multiset()) =~= orig.to_multiset());
            assert(forall|j: int|
                0 <= j < files@.len() ==> before.to_multiset().contains(#[trigger] files@[j]));
            assert(forall|i: int, j: int|
                0 <= i < removed@.len() && 0 <= j < files@.len() ==> removed@[i].modified
                    <= files@[j].modified);
        }
    }
    removed
}

/// The stages of one print job's render surface, from creation to teardown.
#[derive(Clone, Copy, Debug, PartialEq, Eq, Structural)]
pub enum PrintStage {
    /// The temp document is written; no surface exists yet.
    Created,
    /// The hidden surface is open on the document and rendering it.
    Rendering,
    /// The native print dialog has been requested.
    PrintTriggered,
    /// The dialog is (presumably) in front of the user; the job waits out
    /// its second fixed delay, unable to observe the user.
    AwaitingDismissal,
    /// The surface is gone; terminal.
    Closed,
}

/// What the host reports back to the lifecycle.
#[derive(Clone, Copy, Debug, PartialEq, Eq, Structural)]
pub enum PrintEvent {
    /// The hidden render surface was created.
    SurfaceBuilt,
    /// The fixed render delay elapsed.
    RenderWaitElapsed,
    /// The native print action was invoked (it returns when the dialog is
    /// shown, not when the user finishes with it).
    PrintInvoked,
    /// The fixed dialog delay elapsed.
    DialogWaitElapsed,
    /// The front end asked for early teardown by window label.
    CloseRequested,
}

/// What the lifecycle asks the host to do next.
#[derive(Clone, Copy, Debug, PartialEq, Eq, Structural)]
pub enum PrintAction {
    /// Sleep for [`RENDER_WAIT_MS`].
    WaitRenderDelay,
    /// Invoke the native print action on the surface.
    TriggerPrint,
    /// Sleep for [`DIALOG_WAIT_SECS`].
    WaitDialogDelay,
    /// Destroy the render surface; failure to close an already-closed
    /// surface is logged, never escalated.
    CloseSurface,
    /// Nothing: the event does not apply to the stage.
    DoNothing,
}

/// The transition relation of the print-window lifecycle: stages advance in
/// order, an explicit close request tears the surface down from any live
/// stage, and a close on an already-closed job is a no-op.
pub open spec fn print_step_spec(stage: PrintStage, event: PrintEvent) -> (PrintStage, PrintAction) {
    match (stage, event) {
        (PrintStage::Created, PrintEvent::SurfaceBuilt) => (
            PrintStage::Rendering,
            PrintAction::WaitRenderDelay,
        ),
        (PrintStage::Rendering, PrintEvent::RenderWaitElapsed) => (
            PrintStage::PrintTriggered,
            PrintAction::TriggerPrint,
        ),
        (PrintStage::PrintTriggered, PrintEvent::PrintInvoked) => (
            PrintStage::AwaitingDismissal,
            PrintAction::WaitDialogDelay,
        ),
        (PrintStage::AwaitingDismissal, PrintEvent::DialogWaitElapsed) => (
            PrintStage::Closed,
            PrintAction::CloseSurface,
        ),
        (PrintStage::Closed, _) => (PrintStage::Closed, PrintAction::DoNothing),
        (_, PrintEvent::CloseRequested) => (PrintStage::Closed, PrintAction::CloseSurface),
        _ => (stage, PrintAction::DoNothing),
    }
}

/// Advances one print job's lifecycle on a host event, returning the next
/// stage and what the host must do.
pub fn print_step(stage: PrintStage, event: PrintEvent) -> (r: (PrintStage, PrintAction))
    ensures
        r == print_step_spec(stage, event),
{
    match (stage, event) {
        (PrintStage::Created, PrintEvent::SurfaceBuilt) => (
            PrintStage::Rendering,
            PrintAction::WaitRenderDelay,
        ),
        (PrintStage::Rendering, PrintEvent::RenderWaitElapsed) => (
            PrintStage::PrintTriggered,
            PrintAction::TriggerPrint,
        ),
        (PrintStage::PrintTriggered, PrintEvent::PrintInvoked) => (
            PrintStage::AwaitingDismissal,
            PrintAction::WaitDialogDelay,
        ),
        (PrintStage::AwaitingDismissal, PrintEvent::DialogWaitElapsed) => (
            PrintStage::Closed,
            PrintAction::CloseSurface,
        ),
        (PrintStage::Closed, _) => (PrintStage::Closed, PrintAction::DoNothing),
        (_, PrintEvent::CloseRequested) => (PrintStage::Closed, PrintAction::CloseSurface),
        _ => (stage, PrintAction::DoNothing),
    }
}

/// How far along its life a stage is.
pub open spec fn stage_rank(stage: PrintStage) -> int {
    match stage {
        PrintStage::Created => 0,
        PrintStage::Rendering => 1,
        PrintStage::PrintTriggered => 2,
        PrintStage::AwaitingDismissal => 3,
        PrintStage::Closed => 4,
    }
}

/// A print job never moves backwards, and once closed it stays closed
/// whatever else is reported.
pub proof fn lemma_print_lifecycle_progress(stage: PrintStage, event: PrintEvent)
    ensures
        stage_rank(print_step_spec(stage, event).0) >= stage_rank(stage),
        stage is Closed ==> print_step_spec(stage, event) == (
            PrintStage::Closed,
            PrintAction::DoNothing,
        ),
{
}

} // verus!
