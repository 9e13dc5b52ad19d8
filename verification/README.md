# waxe

A small JavaScript shell on SpiderMonkey. The library (`src/`) holds what the
shell decides, verified with Verus:

- `repl`: the read-evaluate-print loop as a state machine (prompts, joining
  lines into a statement, line numbers, when to evaluate, when to exit);
- `report`: turning the engine's pending exception into an `ErrorInfo`, and
  formatting it;
- `outcome`: what an evaluation gives back, and how the runtime shows it;
- `options`: the engine settings that a set of `JSOptions` stands for;
- `builtins`: the decisions of the shell's `print()` and `input()`;
- `text`: C strings, decimal notation, trimming, reading unsigned numbers;
- `trio`: the three-way result type.

`app/` is the program: it talks to the engine through mozjs, reads lines with
rustyline, and hands plain values to the library.
