# gui

The client-side logic of a group chat application, verified with Verus.

- `src/` is the library: the records exchanged with the chat server
  (`component`, `entity`), the state of each page and the decisions taken on
  user input and on server events (`component::*`), the judgement of REST
  replies (`service`), the application state and the WebSocket connection's
  decisions (`state`), and character-level text helpers (`text`). Each public
  function's contract is stated over the mathematical value (`@`) of its
  inputs and outputs; the laws that span several functions are public proof
  functions beside them.
- `app/` is the graphical client built with gpui: it draws the pages, performs
  the network requests and runs the WebSocket connection, taking every
  decision from the library.
- `tests/` exercises the library on concrete values.
