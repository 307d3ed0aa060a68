use vstd::prelude::*;

verus! {

/// The fixed preamble: the JSON shape every answer must have.
pub const SCHEMA: &'static str = r#"
Gib NUR gültiges JSON zurück.
Wenn etwas nicht vorkommt: leeres Array.

Schema (immer gleich):
{
  "title": string,
  "summaryBullets": string[],
  "keyPoints": string[],
  "decisions": string[],
  "nextSteps": string[],
  "markdown": string
}
"#;

/// Instructions for a note ready to paste into a notes app.
pub const SMART_NOTE_BLOCK: &'static str = r#"
MODUS: SMART NOTE
Ziel: Eine klare Notiz, die man sofort in Notion/Obsidian einfügen kann.

Regeln:
- title: kurzer, treffender Titel
- summaryBullets: 2–5 kurze Kernaussagen
- keyPoints: wichtige Fakten / Details
- decisions: nur wenn im Text wirklich entschieden wurde
- nextSteps: konkrete To-dos (Verb am Anfang), 1 Aufgabe pro Eintrag
- markdown: exakt diese Struktur:

# {title}
## Kurzfassung
- ...
## Kernpunkte
- ...
## Entscheidungen
- ...
## Nächste Schritte
- [ ] ...
"#;

/// Instructions for a bare task list.
pub const TASKS_BLOCK: &'static str = r#"
MODUS: AUFGABEN
Ziel: Aus dem Text NUR eine Taskliste machen (maximal praktisch).

Regeln:
- title: z.B. "Aufgaben"
- nextSteps: extrahiere so viele Aufgaben wie nötig, sehr konkret (1 Satz)
- summaryBullets/keyPoints/decisions: nur wenn wirklich nötig, sonst leer
- markdown: fast nur Checkboxen. Kein Fluff.

Format markdown:

# Aufgaben
- [ ] ...
- [ ] ...
"#;

/// Instructions for meeting minutes.
pub const MEETING_BLOCK: &'static str = r#"
MODUS: MEETING-NOTIZEN
Ziel: Protokoll-Style: Agenda/Topics, Decisions, Action Items.

Regeln:
- title: "Meeting: <Thema>"
- summaryBullets: 2–5 Meeting-Outcomes
- keyPoints: Diskussionspunkte/Topics (stichpunktartig)
- decisions: Beschlüsse
- nextSteps: Action Items
- markdown:

# {title}
## Outcomes
- ...
## Themen
- ...
## Entscheidungen
- ...
## Action Items
- [ ] ...
"#;

/// Instructions for an e-mail draft.
pub const EMAIL_BLOCK: &'static str = r#"
MODUS: E-MAIL ENTWURF
Ziel: Eine versandfertige E-Mail (professionell, kurz, klar).

Regeln:
- title: Betreff (ohne "Betreff:" davor)
- summaryBullets/keyPoints/decisions/nextSteps: wenn passend, sonst leer
- markdown MUSS so aussehen:

# Betreff: {title}

Hallo <optional>,

<E-Mail Body, 6–12 Zeilen, klar strukturiert>

Viele Grüße
"#;

/// The closing directive: answer with the JSON object alone.
pub const CLOSING: &'static str = "WICHTIG: Antworte ausschließlich mit dem JSON-Objekt. Keine Erklärung.";

} // verus!
