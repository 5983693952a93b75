# ort_genai

A verified core for bindings to the ONNX Runtime GenAI C API, and for ModelChecker,
a small desktop chat with a local model that can search the web.

* `src/` is the library, verified with Verus. It holds what the bindings and the
  chat decide on plain values: native status and string conversion, C-string
  argument checks, element types and their native codes, tensor element counts and
  data checks, tokenizer/config/guidance option names, the streamed tool-calling
  turn, the conversation history, tool dispatch and the load-stage display.
* `tests/` exercises the library on concrete values.
* `app/` is the program around it: the native handles over the C API (`app/genai`),
  the Foundry Local chat client, the Windows web search and the Windows window.
