# sketch_tools

The crop tool and the text tool of a screenshot annotator, written and proved in Verus.

- `src/` is the library. It handles events, lays text out and turns drawings into lists of
  commands. Every function states in its contract what it does.
- `app/` is the glue to a femtovg canvas and to GTK: it carries the commands out, measures text,
  and does on text buffers and clipboards what the text tool asks for.
- `tests/` runs the library on concrete values.

## Layout of the library

| Module | What it holds |
| --- | --- |
| `scalar`, `math` | numbers, vectors and rectangles |
| `sketch_board`, `style`, `ime`, `canvas` | events and answers, colours, input methods, drawing commands |
| `tools::crop` | the crop tool |
| `tools::crop_laws` | what holds of the crop tool as a whole |
| `tools::text::index`, `content`, `effect` | positions in a text, the text, its effects |
| `tools::text::layout`, `plan`, `draw` | lines, what has to be measured, and the drawing |
| `tools::text::pointer`, `keys`, `buffer` | what the mouse points at, what keys mean, what is asked of a buffer |
| `tools::text::steps`, `tool` | what events do, step by step, and the tool that does it |
| `tools::text::laws`, `edit_laws`, `shown_laws` | what holds of the text tool, of editing, and of what is shown |

## Numbers

Geometry is written over the trait `Scalar`. A contract says which operations are applied to
which numbers, in which order, and so fixes the result for every number type. `i64` (whole
pixels) is an instance inside the library, on which laws of geometry are proved; hardware
floating point is an instance outside it.

## A conversation with the host

An event may need a text buffer or a clipboard, which belong to the host. The text tool then
returns what it asks for (`Outcome`), and the host calls `resume` with the outcome, until the
event is answered.
