use vstd::prelude::*;
use crate::gf256::pow_alpha;

verus! {

// The discrete antilog table of GF(256) written out as a spec-level value:
// exp_lit(e) == alpha^e for e in [0,254].
pub(crate) open spec fn exp_lit(i: int) -> int {
    if i == 0 { 1 }
    else
    if i == 1 { 2 }
    else
    if i == 2 { 4 }
    else
    if i == 3 { 8 }
    else
    if i == 4 { 16 }
    else
    if i == 5 { 32 }
    else
    if i == 6 { 64 }
    else
    if i == 7 { 128 }
    else
    if i == 8 { 29 }
    else
    if i == 9 { 58 }
    else
    if i == 10 { 116 }
    else
    if i == 11 { 232 }
    else
    if i == 12 { 205 }
    else
    if i == 13 { 135 }
    else
    if i == 14 { 19 }
    else
    if i == 15 { 38 }
    else
    if i == 16 { 76 }
    else
    if i == 17 { 152 }
    else
    if i == 18 { 45 }
    else
    if i == 19 { 90 }
    else
    if i == 20 { 180 }
    else
    if i == 21 { 117 }
    else
    if i == 22 { 234 }
    else
    if i == 23 { 201 }
    else
    if i == 24 { 143 }
    else
    if i == 25 { 3 }
    else
    if i == 26 { 6 }
    else
    if i == 27 { 12 }
    else
    if i == 28 { 24 }
    else
    if i == 29 { 48 }
    else
    if i == 30 { 96 }
    else
    if i == 31 { 192 }
    else
    if i == 32 { 157 }
    else
    if i == 33 { 39 }
    else
    if i == 34 { 78 }
    else
    if i == 35 { 156 }
    else
    if i == 36 { 37 }
    else
    if i == 37 { 74 }
    else
    if i == 38 { 148 }
    else
    if i == 39 { 53 }
    else
    if i == 40 { 106 }
    else
    if i == 41 { 212 }
    else
    if i == 42 { 181 }
    else
    if i == 43 { 119 }
    else
    if i == 44 { 238 }
    else
    if i == 45 { 193 }
    else
    if i == 46 { 159 }
    else
    if i == 47 { 35 }
    else
    if i == 48 { 70 }
    else
    if i == 49 { 140 }
    else
    if i == 50 { 5 }
    else
    if i == 51 { 10 }
    else
    if i == 52 { 20 }
    else
    if i == 53 { 40 }
    else
    if i == 54 { 80 }
    else
    if i == 55 { 160 }
    else
    if i == 56 { 93 }
    else
    if i == 57 { 186 }
    else
    if i == 58 { 105 }
    else
    if i == 59 { 210 }
    else
    if i == 60 { 185 }
    else
    if i == 61 { 111 }
    else
    if i == 62 { 222 }
    else
    if i == 63 { 161 }
    else
    if i == 64 { 95 }
    else
    if i == 65 { 190 }
    else
    if i == 66 { 97 }
    else
    if i == 67 { 194 }
    else
    if i == 68 { 153 }
    else
    if i == 69 { 47 }
    else
    if i == 70 { 94 }
    else
    if i == 71 { 188 }
    else
    if i == 72 { 101 }
    else
    if i == 73 { 202 }
    else
    if i == 74 { 137 }
    else
    if i == 75 { 15 }
    else
    if i == 76 { 30 }
    else
    if i == 77 { 60 }
    else
    if i == 78 { 120 }
    else
    if i == 79 { 240 }
    else
    if i == 80 { 253 }
    else
    if i == 81 { 231 }
    else
    if i == 82 { 211 }
    else
    if i == 83 { 187 }
    else
    if i == 84 { 107 }
    else
    if i == 85 { 214 }
    else
    if i == 86 { 177 }
    else
    if i == 87 { 127 }
    else
    if i == 88 { 254 }
    else
    if i == 89 { 225 }
    else
    if i == 90 { 223 }
    else
    if i == 91 { 163 }
    else
    if i == 92 { 91 }
    else
    if i == 93 { 182 }
    else
    if i == 94 { 113 }
    else
    if i == 95 { 226 }
    else
    if i == 96 { 217 }
    else
    if i == 97 { 175 }
    else
    if i == 98 { 67 }
    else
    if i == 99 { 134 }
    else
    if i == 100 { 17 }
    else
    if i == 101 { 34 }
    else
    if i == 102 { 68 }
    else
    if i == 103 { 136 }
    else
    if i == 104 { 13 }
    else
    if i == 105 { 26 }
    else
    if i == 106 { 52 }
    else
    if i == 107 { 104 }
    else
    if i == 108 { 208 }
    else
    if i == 109 { 189 }
    else
    if i == 110 { 103 }
    else
    if i == 111 { 206 }
    else
    if i == 112 { 129 }
    else
    if i == 113 { 31 }
    else
    if i == 114 { 62 }
    else
    if i == 115 { 124 }
    else
    if i == 116 { 248 }
    else
    if i == 117 { 237 }
    else
    if i == 118 { 199 }
    else
    if i == 119 { 147 }
    else
    if i == 120 { 59 }
    else
    if i == 121 { 118 }
    else
    if i == 122 { 236 }
    else
    if i == 123 { 197 }
    else
    if i == 124 { 151 }
    else
    if i == 125 { 51 }
    else
    if i == 126 { 102 }
    else
    if i == 127 { 204 }
    else
    if i == 128 { 133 }
    else
    if i == 129 { 23 }
    else
    if i == 130 { 46 }
    else
    if i == 131 { 92 }
    else
    if i == 132 { 184 }
    else
    if i == 133 { 109 }
    else
    if i == 134 { 218 }
    else
    if i == 135 { 169 }
    else
    if i == 136 { 79 }
    else
    if i == 137 { 158 }
    else
    if i == 138 { 33 }
    else
    if i == 139 { 66 }
    else
    if i == 140 { 132 }
    else
    if i == 141 { 21 }
    else
    if i == 142 { 42 }
    else
    if i == 143 { 84 }
    else
    if i == 144 { 168 }
    else
    if i == 145 { 77 }
    else
    if i == 146 { 154 }
    else
    if i == 147 { 41 }
    else
    if i == 148 { 82 }
    else
    if i == 149 { 164 }
    else
    if i == 150 { 85 }
    else
    if i == 151 { 170 }
    else
    if i == 152 { 73 }
    else
    if i == 153 { 146 }
    else
    if i == 154 { 57 }
    else
    if i == 155 { 114 }
    else
    if i == 156 { 228 }
    else
    if i == 157 { 213 }
    else
    if i == 158 { 183 }
    else
    if i == 159 { 115 }
    else
    if i == 160 { 230 }
    else
    if i == 161 { 209 }
    else
    if i == 162 { 191 }
    else
    if i == 163 { 99 }
    else
    if i == 164 { 198 }
    else
    if i == 165 { 145 }
    else
    if i == 166 { 63 }
    else
    if i == 167 { 126 }
    else
    if i == 168 { 252 }
    else
    if i == 169 { 229 }
    else
    if i == 170 { 215 }
    else
    if i == 171 { 179 }
    else
    if i == 172 { 123 }
    else
    if i == 173 { 246 }
    else
    if i == 174 { 241 }
    else
    if i == 175 { 255 }
    else
    if i == 176 { 227 }
    else
    if i == 177 { 219 }
    else
    if i == 178 { 171 }
    else
    if i == 179 { 75 }
    else
    if i == 180 { 150 }
    else
    if i == 181 { 49 }
    else
    if i == 182 { 98 }
    else
    if i == 183 { 196 }
    else
    if i == 184 { 149 }
    else
    if i == 185 { 55 }
    else
    if i == 186 { 110 }
    else
    if i == 187 { 220 }
    else
    if i == 188 { 165 }
    else
    if i == 189 { 87 }
    else
    if i == 190 { 174 }
    else
    if i == 191 { 65 }
    else
    if i == 192 { 130 }
    else
    if i == 193 { 25 }
    else
    if i == 194 { 50 }
    else
    if i == 195 { 100 }
    else
    if i == 196 { 200 }
    else
    if i == 197 { 141 }
    else
    if i == 198 { 7 }
    else
    if i == 199 { 14 }
    else
    if i == 200 { 28 }
    else
    if i == 201 { 56 }
    else
    if i == 202 { 112 }
    else
    if i == 203 { 224 }
    else
    if i == 204 { 221 }
    else
    if i == 205 { 167 }
    else
    if i == 206 { 83 }
    else
    if i == 207 { 166 }
    else
    if i == 208 { 81 }
    else
    if i == 209 { 162 }
    else
    if i == 210 { 89 }
    else
    if i == 211 { 178 }
    else
    if i == 212 { 121 }
    else
    if i == 213 { 242 }
    else
    if i == 214 { 249 }
    else
    if i == 215 { 239 }
    else
    if i == 216 { 195 }
    else
    if i == 217 { 155 }
    else
    if i == 218 { 43 }
    else
    if i == 219 { 86 }
    else
    if i == 220 { 172 }
    else
    if i == 221 { 69 }
    else
    if i == 222 { 138 }
    else
    if i == 223 { 9 }
    else
    if i == 224 { 18 }
    else
    if i == 225 { 36 }
    else
    if i == 226 { 72 }
    else
    if i == 227 { 144 }
    else
    if i == 228 { 61 }
    else
    if i == 229 { 122 }
    else
    if i == 230 { 244 }
    else
    if i == 231 { 245 }
    else
    if i == 232 { 247 }
    else
    if i == 233 { 243 }
    else
    if i == 234 { 251 }
    else
    if i == 235 { 235 }
    else
    if i == 236 { 203 }
    else
    if i == 237 { 139 }
    else
    if i == 238 { 11 }
    else
    if i == 239 { 22 }
    else
    if i == 240 { 44 }
    else
    if i == 241 { 88 }
    else
    if i == 242 { 176 }
    else
    if i == 243 { 125 }
    else
    if i == 244 { 250 }
    else
    if i == 245 { 233 }
    else
    if i == 246 { 207 }
    else
    if i == 247 { 131 }
    else
    if i == 248 { 27 }
    else
    if i == 249 { 54 }
    else
    if i == 250 { 108 }
    else
    if i == 251 { 216 }
    else
    if i == 252 { 173 }
    else
    if i == 253 { 71 }
    else
    if i == 254 { 142 }
    else { 0 }
}

// The discrete log table of GF(256): log_lit(v) is the exponent of v
// for v in [1,255].
pub(crate) open spec fn log_lit(v: int) -> int {
    if v == 1 { 0 }
    else
    if v == 2 { 1 }
    else
    if v == 3 { 25 }
    else
    if v == 4 { 2 }
    else
    if v == 5 { 50 }
    else
    if v == 6 { 26 }
    else
    if v == 7 { 198 }
    else
    if v == 8 { 3 }
    else
    if v == 9 { 223 }
    else
    if v == 10 { 51 }
    else
    if v == 11 { 238 }
    else
    if v == 12 { 27 }
    else
    if v == 13 { 104 }
    else
    if v == 14 { 199 }
    else
    if v == 15 { 75 }
    else
    if v == 16 { 4 }
    else
    if v == 17 { 100 }
    else
    if v == 18 { 224 }
    else
    if v == 19 { 14 }
    else
    if v == 20 { 52 }
    else
    if v == 21 { 141 }
    else
    if v == 22 { 239 }
    else
    if v == 23 { 129 }
    else
    if v == 24 { 28 }
    else
    if v == 25 { 193 }
    else
    if v == 26 { 105 }
    else
    if v == 27 { 248 }
    else
    if v == 28 { 200 }
    else
    if v == 29 { 8 }
    else
    if v == 30 { 76 }
    else
    if v == 31 { 113 }
    else
    if v == 32 { 5 }
    else
    if v == 33 { 138 }
    else
    if v == 34 { 101 }
    else
    if v == 35 { 47 }
    else
    if v == 36 { 225 }
    else
    if v == 37 { 36 }
    else
    if v == 38 { 15 }
    else
    if v == 39 { 33 }
    else
    if v == 40 { 53 }
    else
    if v == 41 { 147 }
    else
    if v == 42 { 142 }
    else
    if v == 43 { 218 }
    else
    if v == 44 { 240 }
    else
    if v == 45 { 18 }
    else
    if v == 46 { 130 }
    else
    if v == 47 { 69 }
    else
    if v == 48 { 29 }
    else
    if v == 49 { 181 }
    else
    if v == 50 { 194 }
    else
    if v == 51 { 125 }
    else
    if v == 52 { 106 }
    else
    if v == 53 { 39 }
    else
    if v == 54 { 249 }
    else
    if v == 55 { 185 }
    else
    if v == 56 { 201 }
    else
    if v == 57 { 154 }
    else
    if v == 58 { 9 }
    else
    if v == 59 { 120 }
    else
    if v == 60 { 77 }
    else
    if v == 61 { 228 }
    else
    if v == 62 { 114 }
    else
    if v == 63 { 166 }
    else
    if v == 64 { 6 }
    else
    if v == 65 { 191 }
    else
    if v == 66 { 139 }
    else
    if v == 67 { 98 }
    else
    if v == 68 { 102 }
    else
    if v == 69 { 221 }
    else
    if v == 70 { 48 }
    else
    if v == 71 { 253 }
    else
    if v == 72 { 226 }
    else
    if v == 73 { 152 }
    else
    if v == 74 { 37 }
    else
    if v == 75 { 179 }
    else
    if v == 76 { 16 }
    else
    if v == 77 { 145 }
    else
    if v == 78 { 34 }
    else
    if v == 79 { 136 }
    else
    if v == 80 { 54 }
    else
    if v == 81 { 208 }
    else
    if v == 82 { 148 }
    else
    if v == 83 { 206 }
    else
    if v == 84 { 143 }
    else
    if v == 85 { 150 }
    else
    if v == 86 { 219 }
    else
    if v == 87 { 189 }
    else
    if v == 88 { 241 }
    else
    if v == 89 { 210 }
    else
    if v == 90 { 19 }
    else
    if v == 91 { 92 }
    else
    if v == 92 { 131 }
    else
    if v == 93 { 56 }
    else
    if v == 94 { 70 }
    else
    if v == 95 { 64 }
    else
    if v == 96 { 30 }
    else
    if v == 97 { 66 }
    else
    if v == 98 { 182 }
    else
    if v == 99 { 163 }
    else
    if v == 100 { 195 }
    else
    if v == 101 { 72 }
    else
    if v == 102 { 126 }
    else
    if v == 103 { 110 }
    else
    if v == 104 { 107 }
    else
    if v == 105 { 58 }
    else
    if v == 106 { 40 }
    else
    if v == 107 { 84 }
    else
    if v == 108 { 250 }
    else
    if v == 109 { 133 }
    else
    if v == 110 { 186 }
    else
    if v == 111 { 61 }
    else
    if v == 112 { 202 }
    else
    if v == 113 { 94 }
    else
    if v == 114 { 155 }
    else
    if v == 115 { 159 }
    else
    if v == 116 { 10 }
    else
    if v == 117 { 21 }
    else
    if v == 118 { 121 }
    else
    if v == 119 { 43 }
    else
    if v == 120 { 78 }
    else
    if v == 121 { 212 }
    else
    if v == 122 { 229 }
    else
    if v == 123 { 172 }
    else
    if v == 124 { 115 }
    else
    if v == 125 { 243 }
    else
    if v == 126 { 167 }
    else
    if v == 127 { 87 }
    else
    if v == 128 { 7 }
    else
    if v == 129 { 112 }
    else
    if v == 130 { 192 }
    else
    if v == 131 { 247 }
    else
    if v == 132 { 140 }
    else
    if v == 133 { 128 }
    else
    if v == 134 { 99 }
    else
    if v == 135 { 13 }
    else
    if v == 136 { 103 }
    else
    if v == 137 { 74 }
    else
    if v == 138 { 222 }
    else
    if v == 139 { 237 }
    else
    if v == 140 { 49 }
    else
    if v == 141 { 197 }
    else
    if v == 142 { 254 }
    else
    if v == 143 { 24 }
    else
    if v == 144 { 227 }
    else
    if v == 145 { 165 }
    else
    if v == 146 { 153 }
    else
    if v == 147 { 119 }
    else
    if v == 148 { 38 }
    else
    if v == 149 { 184 }
    else
    if v == 150 { 180 }
    else
    if v == 151 { 124 }
    else
    if v == 152 { 17 }
    else
    if v == 153 { 68 }
    else
    if v == 154 { 146 }
    else
    if v == 155 { 217 }
    else
    if v == 156 { 35 }
    else
    if v == 157 { 32 }
    else
    if v == 158 { 137 }
    else
    if v == 159 { 46 }
    else
    if v == 160 { 55 }
    else
    if v == 161 { 63 }
    else
    if v == 162 { 209 }
    else
    if v == 163 { 91 }
    else
    if v == 164 { 149 }
    else
    if v == 165 { 188 }
    else
    if v == 166 { 207 }
    else
    if v == 167 { 205 }
    else
    if v == 168 { 144 }
    else
    if v == 169 { 135 }
    else
    if v == 170 { 151 }
    else
    if v == 171 { 178 }
    else
    if v == 172 { 220 }
    else
    if v == 173 { 252 }
    else
    if v == 174 { 190 }
    else
    if v == 175 { 97 }
    else
    if v == 176 { 242 }
    else
    if v == 177 { 86 }
    else
    if v == 178 { 211 }
    else
    if v == 179 { 171 }
    else
    if v == 180 { 20 }
    else
    if v == 181 { 42 }
    else
    if v == 182 { 93 }
    else
    if v == 183 { 158 }
    else
    if v == 184 { 132 }
    else
    if v == 185 { 60 }
    else
    if v == 186 { 57 }
    else
    if v == 187 { 83 }
    else
    if v == 188 { 71 }
    else
    if v == 189 { 109 }
    else
    if v == 190 { 65 }
    else
    if v == 191 { 162 }
    else
    if v == 192 { 31 }
    else
    if v == 193 { 45 }
    else
    if v == 194 { 67 }
    else
    if v == 195 { 216 }
    else
    if v == 196 { 183 }
    else
    if v == 197 { 123 }
    else
    if v == 198 { 164 }
    else
    if v == 199 { 118 }
    else
    if v == 200 { 196 }
    else
    if v == 201 { 23 }
    else
    if v == 202 { 73 }
    else
    if v == 203 { 236 }
    else
    if v == 204 { 127 }
    else
    if v == 205 { 12 }
    else
    if v == 206 { 111 }
    else
    if v == 207 { 246 }
    else
    if v == 208 { 108 }
    else
    if v == 209 { 161 }
    else
    if v == 210 { 59 }
    else
    if v == 211 { 82 }
    else
    if v == 212 { 41 }
    else
    if v == 213 { 157 }
    else
    if v == 214 { 85 }
    else
    if v == 215 { 170 }
    else
    if v == 216 { 251 }
    else
    if v == 217 { 96 }
    else
    if v == 218 { 134 }
    else
    if v == 219 { 177 }
    else
    if v == 220 { 187 }
    else
    if v == 221 { 204 }
    else
    if v == 222 { 62 }
    else
    if v == 223 { 90 }
    else
    if v == 224 { 203 }
    else
    if v == 225 { 89 }
    else
    if v == 226 { 95 }
    else
    if v == 227 { 176 }
    else
    if v == 228 { 156 }
    else
    if v == 229 { 169 }
    else
    if v == 230 { 160 }
    else
    if v == 231 { 81 }
    else
    if v == 232 { 11 }
    else
    if v == 233 { 245 }
    else
    if v == 234 { 22 }
    else
    if v == 235 { 235 }
    else
    if v == 236 { 122 }
    else
    if v == 237 { 117 }
    else
    if v == 238 { 44 }
    else
    if v == 239 { 215 }
    else
    if v == 240 { 79 }
    else
    if v == 241 { 174 }
    else
    if v == 242 { 213 }
    else
    if v == 243 { 233 }
    else
    if v == 244 { 230 }
    else
    if v == 245 { 231 }
    else
    if v == 246 { 173 }
    else
    if v == 247 { 232 }
    else
    if v == 248 { 116 }
    else
    if v == 249 { 214 }
    else
    if v == 250 { 244 }
    else
    if v == 251 { 234 }
    else
    if v == 252 { 168 }
    else
    if v == 253 { 80 }
    else
    if v == 254 { 88 }
    else
    if v == 255 { 175 }
    else { 0 }
}

proof fn lemma_pow_vals_0()
    ensures
        pow_alpha(0) == 1,
        pow_alpha(1) == 2,
        pow_alpha(2) == 4,
        pow_alpha(3) == 8,
        pow_alpha(4) == 16,
        pow_alpha(5) == 32,
        pow_alpha(6) == 64,
        pow_alpha(7) == 128,
        pow_alpha(8) == 29,
        pow_alpha(9) == 58,
        pow_alpha(10) == 116,
        pow_alpha(11) == 232,
        pow_alpha(12) == 205,
        pow_alpha(13) == 135,
        pow_alpha(14) == 19,
        pow_alpha(15) == 38,
        pow_alpha(16) == 76,
        pow_alpha(17) == 152,
        pow_alpha(18) == 45,
        pow_alpha(19) == 90,
        pow_alpha(20) == 180,
        pow_alpha(21) == 117,
        pow_alpha(22) == 234,
        pow_alpha(23) == 201,
        pow_alpha(24) == 143,
        pow_alpha(25) == 3,
        pow_alpha(26) == 6,
        pow_alpha(27) == 12,
        pow_alpha(28) == 24,
        pow_alpha(29) == 48,
        pow_alpha(30) == 96,
        pow_alpha(31) == 192,
{
    assert(256u32 ^ 0x11Du32 == 29u32 && 464u32 ^ 0x11Du32 == 205u32 && 410u32 ^ 0x11Du32 == 135u32 && 270u32 ^ 0x11Du32 == 19u32 && 304u32 ^ 0x11Du32 == 45u32 && 360u32 ^ 0x11Du32 == 117u32 && 468u32 ^ 0x11Du32 == 201u32 && 402u32 ^ 0x11Du32 == 143u32 && 286u32 ^ 0x11Du32 == 3u32) by (bit_vector);
    assert(pow_alpha(0) == 1);
    assert(pow_alpha(1) == 2);
    assert(pow_alpha(2) == 4);
    assert(pow_alpha(3) == 8);
    assert(pow_alpha(4) == 16);
    assert(pow_alpha(5) == 32);
    assert(pow_alpha(6) == 64);
    assert(pow_alpha(7) == 128);
    assert(pow_alpha(8) == 29);
    assert(pow_alpha(9) == 58);
    assert(pow_alpha(10) == 116);
    assert(pow_alpha(11) == 232);
    assert(pow_alpha(12) == 205);
    assert(pow_alpha(13) == 135);
    assert(pow_alpha(14) == 19);
    assert(pow_alpha(15) == 38);
    assert(pow_alpha(16) == 76);
    assert(pow_alpha(17) == 152);
    assert(pow_alpha(18) == 45);
    assert(pow_alpha(19) == 90);
    assert(pow_alpha(20) == 180);
    assert(pow_alpha(21) == 117);
    assert(pow_alpha(22) == 234);
    assert(pow_alpha(23) == 201);
    assert(pow_alpha(24) == 143);
    assert(pow_alpha(25) == 3);
    assert(pow_alpha(26) == 6);
    assert(pow_alpha(27) == 12);
    assert(pow_alpha(28) == 24);
    assert(pow_alpha(29) == 48);
    assert(pow_alpha(30) == 96);
    assert(pow_alpha(31) == 192);
}

proof fn lemma_pow_vals_1()
    ensures
        pow_alpha(31) == 192,
        pow_alpha(32) == 157,
        pow_alpha(33) == 39,
        pow_alpha(34) == 78,
        pow_alpha(35) == 156,
        pow_alpha(36) == 37,
        pow_alpha(37) == 74,
        pow_alpha(38) == 148,
        pow_alpha(39) == 53,
        pow_alpha(40) == 106,
        pow_alpha(41) == 212,
        pow_alpha(42) == 181,
        pow_alpha(43) == 119,
        pow_alpha(44) == 238,
        pow_alpha(45) == 193,
        pow_alpha(46) == 159,
        pow_alpha(47) == 35,
        pow_alpha(48) == 70,
        pow_alpha(49) == 140,
        pow_alpha(50) == 5,
        pow_alpha(51) == 10,
        pow_alpha(52) == 20,
        pow_alpha(53) == 40,
        pow_alpha(54) == 80,
        pow_alpha(55) == 160,
        pow_alpha(56) == 93,
        pow_alpha(57) == 186,
        pow_alpha(58) == 105,
        pow_alpha(59) == 210,
        pow_alpha(60) == 185,
        pow_alpha(61) == 111,
        pow_alpha(62) == 222,
        pow_alpha(63) == 161,
{
    lemma_pow_vals_0();
    assert(384u32 ^ 0x11Du32 == 157u32 && 314u32 ^ 0x11Du32 == 39u32 && 312u32 ^ 0x11Du32 == 37u32 && 296u32 ^ 0x11Du32 == 53u32 && 424u32 ^ 0x11Du32 == 181u32 && 362u32 ^ 0x11Du32 == 119u32 && 476u32 ^ 0x11Du32 == 193u32 && 386u32 ^ 0x11Du32 == 159u32 && 318u32 ^ 0x11Du32 == 35u32 && 280u32 ^ 0x11Du32 == 5u32 && 320u32 ^ 0x11Du32 == 93u32 && 372u32 ^ 0x11Du32 == 105u32 && 420u32 ^ 0x11Du32 == 185u32 && 370u32 ^ 0x11Du32 == 111u32 && 444u32 ^ 0x11Du32 == 161u32) by (bit_vector);
    assert(pow_alpha(32) == 157);
    assert(pow_alpha(33) == 39);
    assert(pow_alpha(34) == 78);
    assert(pow_alpha(35) == 156);
    assert(pow_alpha(36) == 37);
    assert(pow_alpha(37) == 74);
    assert(pow_alpha(38) == 148);
    assert(pow_alpha(39) == 53);
    assert(pow_alpha(40) == 106);
    assert(pow_alpha(41) == 212);
    assert(pow_alpha(42) == 181);
    assert(pow_alpha(43) == 119);
    assert(pow_alpha(44) == 238);
    assert(pow_alpha(45) == 193);
    assert(pow_alpha(46) == 159);
    assert(pow_alpha(47) == 35);
    assert(pow_alpha(48) == 70);
    assert(pow_alpha(49) == 140);
    assert(pow_alpha(50) == 5);
    assert(pow_alpha(51) == 10);
    assert(pow_alpha(52) == 20);
    assert(pow_alpha(53) == 40);
    assert(pow_alpha(54) == 80);
    assert(pow_alpha(55) == 160);
    assert(pow_alpha(56) == 93);
    assert(pow_alpha(57) == 186);
    assert(pow_alpha(58) == 105);
    assert(pow_alpha(59) == 210);
    assert(pow_alpha(60) == 185);
    assert(pow_alpha(61) == 111);
    assert(pow_alpha(62) == 222);
    assert(pow_alpha(63) == 161);
}

proof fn lemma_pow_vals_2()
    ensures
        pow_alpha(63) == 161,
        pow_alpha(64) == 95,
        pow_alpha(65) == 190,
        pow_alpha(66) == 97,
        pow_alpha(67) == 194,
        pow_alpha(68) == 153,
        pow_alpha(69) == 47,
        pow_alpha(70) == 94,
        pow_alpha(71) == 188,
        pow_alpha(72) == 101,
        pow_alpha(73) == 202,
        pow_alpha(74) == 137,
        pow_alpha(75) == 15,
        pow_alpha(76) == 30,
        pow_alpha(77) == 60,
        pow_alpha(78) == 120,
        pow_alpha(79) == 240,
        pow_alpha(80) == 253,
        pow_alpha(81) == 231,
        pow_alpha(82) == 211,
        pow_alpha(83) == 187,
        pow_alpha(84) == 107,
        pow_alpha(85) == 214,
        pow_alpha(86) == 177,
        pow_alpha(87) == 127,
        pow_alpha(88) == 254,
        pow_alpha(89) == 225,
        pow_alpha(90) == 223,
        pow_alpha(91) == 163,
        pow_alpha(92) == 91,
        pow_alpha(93) == 182,
        pow_alpha(94) == 113,
        pow_alpha(95) == 226,
{
    lemma_pow_vals_1();
    assert(322u32 ^ 0x11Du32 == 95u32 && 380u32 ^ 0x11Du32 == 97u32 && 388u32 ^ 0x11Du32 == 153u32 && 306u32 ^ 0x11Du32 == 47u32 && 376u32 ^ 0x11Du32 == 101u32 && 404u32 ^ 0x11Du32 == 137u32 && 274u32 ^ 0x11Du32 == 15u32 && 480u32 ^ 0x11Du32 == 253u32 && 506u32 ^ 0x11Du32 == 231u32 && 462u32 ^ 0x11Du32 == 211u32 && 422u32 ^ 0x11Du32 == 187u32 && 374u32 ^ 0x11Du32 == 107u32 && 428u32 ^ 0x11Du32 == 177u32 && 354u32 ^ 0x11Du32 == 127u32 && 508u32 ^ 0x11Du32 == 225u32 && 450u32 ^ 0x11Du32 == 223u32 && 446u32 ^ 0x11Du32 == 163u32 && 326u32 ^ 0x11Du32 == 91u32 && 364u32 ^ 0x11Du32 == 113u32) by (bit_vector);
    assert(pow_alpha(64) == 95);
    assert(pow_alpha(65) == 190);
    assert(pow_alpha(66) == 97);
    assert(pow_alpha(67) == 194);
    assert(pow_alpha(68) == 153);
    assert(pow_alpha(69) == 47);
    assert(pow_alpha(70) == 94);
    assert(pow_alpha(71) == 188);
    assert(pow_alpha(72) == 101);
    assert(pow_alpha(73) == 202);
    assert(pow_alpha(74) == 137);
    assert(pow_alpha(75) == 15);
    assert(pow_alpha(76) == 30);
    assert(pow_alpha(77) == 60);
    assert(pow_alpha(78) == 120);
    assert(pow_alpha(79) == 240);
    assert(pow_alpha(80) == 253);
    assert(pow_alpha(81) == 231);
    assert(pow_alpha(82) == 211);
    assert(pow_alpha(83) == 187);
    assert(pow_alpha(84) == 107);
    assert(pow_alpha(85) == 214);
    assert(pow_alpha(86) == 177);
    assert(pow_alpha(87) == 127);
    assert(pow_alpha(88) == 254);
    assert(pow_alpha(89) == 225);
    assert(pow_alpha(90) == 223);
    assert(pow_alpha(91) == 163);
    assert(pow_alpha(92) == 91);
    assert(pow_alpha(93) == 182);
    assert(pow_alpha(94) == 113);
    assert(pow_alpha(95) == 226);
}

proof fn lemma_pow_vals_3()
    ensures
        pow_alpha(95) == 226,
        pow_alpha(96) == 217,
        pow_alpha(97) == 175,
        pow_alpha(98) == 67,
        pow_alpha(99) == 134,
        pow_alpha(100) == 17,
        pow_alpha(101) == 34,
        pow_alpha(102) == 68,
        pow_alpha(103) == 136,
        pow_alpha(104) == 13,
        pow_alpha(105) == 26,
        pow_alpha(106) == 52,
        pow_alpha(107) == 104,
        pow_alpha(108) == 208,
        pow_alpha(109) == 189,
        pow_alpha(110) == 103,
        pow_alpha(111) == 206,
        pow_alpha(112) == 129,
        pow_alpha(113) == 31,
        pow_alpha(114) == 62,
        pow_alpha(115) == 124,
        pow_alpha(116) == 248,
        pow_alpha(117) == 237,
        pow_alpha(118) == 199,
        pow_alpha(119) == 147,
        pow_alpha(120) == 59,
        pow_alpha(121) == 118,
        pow_alpha(122) == 236,
        pow_alpha(123) == 197,
        pow_alpha(124) == 151,
        pow_alpha(125) == 51,
        pow_alpha(126) == 102,
        pow_alpha(127) == 204,
{
    lemma_pow_vals_2();
    assert(452u32 ^ 0x11Du32 == 217u32 && 434u32 ^ 0x11Du32 == 175u32 && 350u32 ^ 0x11Du32 == 67u32 && 268u32 ^ 0x11Du32 == 17u32 && 272u32 ^ 0x11Du32 == 13u32 && 416u32 ^ 0x11Du32 == 189u32 && 378u32 ^ 0x11Du32 == 103u32 && 412u32 ^ 0x11Du32 == 129u32 && 258u32 ^ 0x11Du32 == 31u32 && 496u32 ^ 0x11Du32 == 237u32 && 474u32 ^ 0x11Du32 == 199u32 && 398u32 ^ 0x11Du32 == 147u32 && 294u32 ^ 0x11Du32 == 59u32 && 472u32 ^ 0x11Du32 == 197u32 && 394u32 ^ 0x11Du32 == 151u32 && 302u32 ^ 0x11Du32 == 51u32) by (bit_vector);
    assert(pow_alpha(96) == 217);
    assert(pow_alpha(97) == 175);
    assert(pow_alpha(98) == 67);
    assert(pow_alpha(99) == 134);
    assert(pow_alpha(100) == 17);
    assert(pow_alpha(101) == 34);
    assert(pow_alpha(102) == 68);
    assert(pow_alpha(103) == 136);
    assert(pow_alpha(104) == 13);
    assert(pow_alpha(105) == 26);
    assert(pow_alpha(106) == 52);
    assert(pow_alpha(107) == 104);
    assert(pow_alpha(108) == 208);
    assert(pow_alpha(109) == 189);
    assert(pow_alpha(110) == 103);
    assert(pow_alpha(111) == 206);
    assert(pow_alpha(112) == 129);
    assert(pow_alpha(113) == 31);
    assert(pow_alpha(114) == 62);
    assert(pow_alpha(115) == 124);
    assert(pow_alpha(116) == 248);
    assert(pow_alpha(117) == 237);
    assert(pow_alpha(118) == 199);
    assert(pow_alpha(119) == 147);
    assert(pow_alpha(120) == 59);
    assert(pow_alpha(121) == 118);
    assert(pow_alpha(122) == 236);
    assert(pow_alpha(123) == 197);
    assert(pow_alpha(124) == 151);
    assert(pow_alpha(125) == 51);
    assert(pow_alpha(126) == 102);
    assert(pow_alpha(127) == 204);
}

proof fn lemma_pow_vals_4()
    ensures
        pow_alpha(127) == 204,
        pow_alpha(128) == 133,
        pow_alpha(129) == 23,
        pow_alpha(130) == 46,
        pow_alpha(131) == 92,
        pow_alpha(132) == 184,
        pow_alpha(133) == 109,
        pow_alpha(134) == 218,
        pow_alpha(135) == 169,
        pow_alpha(136) == 79,
        pow_alpha(137) == 158,
        pow_alpha(138) == 33,
        pow_alpha(139) == 66,
        pow_alpha(140) == 132,
        pow_alpha(141) == 21,
        pow_alpha(142) == 42,
        pow_alpha(143) == 84,
        pow_alpha(144) == 168,
        pow_alpha(145) == 77,
        pow_alpha(146) == 154,
        pow_alpha(147) == 41,
        pow_alpha(148) == 82,
        pow_alpha(149) == 164,
        pow_alpha(150) == 85,
        pow_alpha(151) == 170,
        pow_alpha(152) == 73,
        pow_alpha(153) == 146,
        pow_alpha(154) == 57,
        pow_alpha(155) == 114,
        pow_alpha(156) == 228,
        pow_alpha(157) == 213,
        pow_alpha(158) == 183,
        pow_alpha(159) == 115,
{
    lemma_pow_vals_3();
    assert(408u32 ^ 0x11Du32 == 133u32 && 266u32 ^ 0x11Du32 == 23u32 && 368u32 ^ 0x11Du32 == 109u32 && 436u32 ^ 0x11Du32 == 169u32 && 338u32 ^ 0x11Du32 == 79u32 && 316u32 ^ 0x11Du32 == 33u32 && 264u32 ^ 0x11Du32 == 21u32 && 336u32 ^ 0x11Du32 == 77u32 && 308u32 ^ 0x11Du32 == 41u32 && 328u32 ^ 0x11Du32 == 85u32 && 340u32 ^ 0x11Du32 == 73u32 && 292u32 ^ 0x11Du32 == 57u32 && 456u32 ^ 0x11Du32 == 213u32 && 426u32 ^ 0x11Du32 == 183u32 && 366u32 ^ 0x11Du32 == 115u32) by (bit_vector);
    assert(pow_alpha(128) == 133);
    assert(pow_alpha(129) == 23);
    assert(pow_alpha(130) == 46);
    assert(pow_alpha(131) == 92);
    assert(pow_alpha(132) == 184);
    assert(pow_alpha(133) == 109);
    assert(pow_alpha(134) == 218);
    assert(pow_alpha(135) == 169);
    assert(pow_alpha(136) == 79);
    assert(pow_alpha(137) == 158);
    assert(pow_alpha(138) == 33);
    assert(pow_alpha(139) == 66);
    assert(pow_alpha(140) == 132);
    assert(pow_alpha(141) == 21);
    assert(pow_alpha(142) == 42);
    assert(pow_alpha(143) == 84);
    assert(pow_alpha(144) == 168);
    assert(pow_alpha(145) == 77);
    assert(pow_alpha(146) == 154);
    assert(pow_alpha(147) == 41);
    assert(pow_alpha(148) == 82);
    assert(pow_alpha(149) == 164);
    assert(pow_alpha(150) == 85);
    assert(pow_alpha(151) == 170);
    assert(pow_alpha(152) == 73);
    assert(pow_alpha(153) == 146);
    assert(pow_alpha(154) == 57);
    assert(pow_alpha(155) == 114);
    assert(pow_alpha(156) == 228);
    assert(pow_alpha(157) == 213);
    assert(pow_alpha(158) == 183);
    assert(pow_alpha(159) == 115);
}

proof fn lemma_pow_vals_5()
    ensures
        pow_alpha(159) == 115,
        pow_alpha(160) == 230,
        pow_alpha(161) == 209,
        pow_alpha(162) == 191,
        pow_alpha(163) == 99,
        pow_alpha(164) == 198,
        pow_alpha(165) == 145,
        pow_alpha(166) == 63,
        pow_alpha(167) == 126,
        pow_alpha(168) == 252,
        pow_alpha(169) == 229,
        pow_alpha(170) == 215,
        pow_alpha(171) == 179,
        pow_alpha(172) == 123,
        pow_alpha(173) == 246,
        pow_alpha(174) == 241,
        pow_alpha(175) == 255,
        pow_alpha(176) == 227,
        pow_alpha(177) == 219,
        pow_alpha(178) == 171,
        pow_alpha(179) == 75,
        pow_alpha(180) == 150,
        pow_alpha(181) == 49,
        pow_alpha(182) == 98,
        pow_alpha(183) == 196,
        pow_alpha(184) == 149,
        pow_alpha(185) == 55,
        pow_alpha(186) == 110,
        pow_alpha(187) == 220,
        pow_alpha(188) == 165,
        pow_alpha(189) == 87,
        pow_alpha(190) == 174,
        pow_alpha(191) == 65,
{
    lemma_pow_vals_4();
    assert(460u32 ^ 0x11Du32 == 209u32 && 418u32 ^ 0x11Du32 == 191u32 && 382u32 ^ 0x11Du32 == 99u32 && 396u32 ^ 0x11Du32 == 145u32 && 290u32 ^ 0x11Du32 == 63u32 && 504u32 ^ 0x11Du32 == 229u32 && 458u32 ^ 0x11Du32 == 215u32 && 430u32 ^ 0x11Du32 == 179u32 && 358u32 ^ 0x11Du32 == 123u32 && 492u32 ^ 0x11Du32 == 241u32 && 482u32 ^ 0x11Du32 == 255u32 && 510u32 ^ 0x11Du32 == 227u32 && 454u32 ^ 0x11Du32 == 219u32 && 438u32 ^ 0x11Du32 == 171u32 && 342u32 ^ 0x11Du32 == 75u32 && 300u32 ^ 0x11Du32 == 49u32 && 392u32 ^ 0x11Du32 == 149u32 && 298u32 ^ 0x11Du32 == 55u32 && 440u32 ^ 0x11Du32 == 165u32 && 330u32 ^ 0x11Du32 == 87u32 && 348u32 ^ 0x11Du32 == 65u32) by (bit_vector);
    assert(pow_alpha(160) == 230);
    assert(pow_alpha(161) == 209);
    assert(pow_alpha(162) == 191);
    assert(pow_alpha(163) == 99);
    assert(pow_alpha(164) == 198);
    assert(pow_alpha(165) == 145);
    assert(pow_alpha(166) == 63);
    assert(pow_alpha(167) == 126);
    assert(pow_alpha(168) == 252);
    assert(pow_alpha(169) == 229);
    assert(pow_alpha(170) == 215);
    assert(pow_alpha(171) == 179);
    assert(pow_alpha(172) == 123);
    assert(pow_alpha(173) == 246);
    assert(pow_alpha(174) == 241);
    assert(pow_alpha(175) == 255);
    assert(pow_alpha(176) == 227);
    assert(pow_alpha(177) == 219);
    assert(pow_alpha(178) == 171);
    assert(pow_alpha(179) == 75);
    assert(pow_alpha(180) == 150);
    assert(pow_alpha(181) == 49);
    assert(pow_alpha(182) == 98);
    assert(pow_alpha(183) == 196);
    assert(pow_alpha(184) == 149);
    assert(pow_alpha(185) == 55);
    assert(pow_alpha(186) == 110);
    assert(pow_alpha(187) == 220);
    assert(pow_alpha(188) == 165);
    assert(pow_alpha(189) == 87);
    assert(pow_alpha(190) == 174);
    assert(pow_alpha(191) == 65);
}

proof fn lemma_pow_vals_6()
    ensures
        pow_alpha(191) == 65,
        pow_alpha(192) == 130,
        pow_alpha(193) == 25,
        pow_alpha(194) == 50,
        pow_alpha(195) == 100,
        pow_alpha(196) == 200,
        pow_alpha(197) == 141,
        pow_alpha(198) == 7,
        pow_alpha(199) == 14,
        pow_alpha(200) == 28,
        pow_alpha(201) == 56,
        pow_alpha(202) == 112,
        pow_alpha(203) == 224,
        pow_alpha(204) == 221,
        pow_alpha(205) == 167,
        pow_alpha(206) == 83,
        pow_alpha(207) == 166,
        pow_alpha(208) == 81,
        pow_alpha(209) == 162,
        pow_alpha(210) == 89,
        pow_alpha(211) == 178,
        pow_alpha(212) == 121,
        pow_alpha(213) == 242,
        pow_alpha(214) == 249,
        pow_alpha(215) == 239,
        pow_alpha(216) == 195,
        pow_alpha(217) == 155,
        pow_alpha(218) == 43,
        pow_alpha(219) == 86,
        pow_alpha(220) == 172,
        pow_alpha(221) == 69,
        pow_alpha(222) == 138,
        pow_alpha(223) == 9,
{
    lemma_pow_vals_5();
    assert(260u32 ^ 0x11Du32 == 25u32 && 400u32 ^ 0x11Du32 == 141u32 && 282u32 ^ 0x11Du32 == 7u32 && 448u32 ^ 0x11Du32 == 221u32 && 442u32 ^ 0x11Du32 == 167u32 && 334u32 ^ 0x11Du32 == 83u32 && 332u32 ^ 0x11Du32 == 81u32 && 324u32 ^ 0x11Du32 == 89u32 && 356u32 ^ 0x11Du32 == 121u32 && 484u32 ^ 0x11Du32 == 249u32 && 498u32 ^ 0x11Du32 == 239u32 && 478u32 ^ 0x11Du32 == 195u32 && 390u32 ^ 0x11Du32 == 155u32 && 310u32 ^ 0x11Du32 == 43u32 && 344u32 ^ 0x11Du32 == 69u32 && 276u32 ^ 0x11Du32 == 9u32) by (bit_vector);
    assert(pow_alpha(192) == 130);
    assert(pow_alpha(193) == 25);
    assert(pow_alpha(194) == 50);
    assert(pow_alpha(195) == 100);
    assert(pow_alpha(196) == 200);
    assert(pow_alpha(197) == 141);
    assert(pow_alpha(198) == 7);
    assert(pow_alpha(199) == 14);
    assert(pow_alpha(200) == 28);
    assert(pow_alpha(201) == 56);
    assert(pow_alpha(202) == 112);
    assert(pow_alpha(203) == 224);
    assert(pow_alpha(204) == 221);
    assert(pow_alpha(205) == 167);
    assert(pow_alpha(206) == 83);
    assert(pow_alpha(207) == 166);
    assert(pow_alpha(208) == 81);
    assert(pow_alpha(209) == 162);
    assert(pow_alpha(210) == 89);
    assert(pow_alpha(211) == 178);
    assert(pow_alpha(212) == 121);
    assert(pow_alpha(213) == 242);
    assert(pow_alpha(214) == 249);
    assert(pow_alpha(215) == 239);
    assert(pow_alpha(216) == 195);
    assert(pow_alpha(217) == 155);
    assert(pow_alpha(218) == 43);
    assert(pow_alpha(219) == 86);
    assert(pow_alpha(220) == 172);
    assert(pow_alpha(221) == 69);
    assert(pow_alpha(222) == 138);
    assert(pow_alpha(223) == 9);
}

proof fn lemma_pow_vals_7()
    ensures
        pow_alpha(223) == 9,
        pow_alpha(224) == 18,
        pow_alpha(225) == 36,
        pow_alpha(226) == 72,
        pow_alpha(227) == 144,
        pow_alpha(228) == 61,
        pow_alpha(229) == 122,
        pow_alpha(230) == 244,
        pow_alpha(231) == 245,
        pow_alpha(232) == 247,
        pow_alpha(233) == 243,
        pow_alpha(234) == 251,
        pow_alpha(235) == 235,
        pow_alpha(236) == 203,
        pow_alpha(237) == 139,
        pow_alpha(238) == 11,
        pow_alpha(239) == 22,
        pow_alpha(240) == 44,
        pow_alpha(241) == 88,
        pow_alpha(242) == 176,
        pow_alpha(243) == 125,
        pow_alpha(244) == 250,
        pow_alpha(245) == 233,
        pow_alpha(246) == 207,
        pow_alpha(247) == 131,
        pow_alpha(248) == 27,
        pow_alpha(249) == 54,
        pow_alpha(250) == 108,
        pow_alpha(251) == 216,
        pow_alpha(252) == 173,
        pow_alpha(253) == 71,
        pow_alpha(254) == 142,
{
    lemma_pow_vals_6();
    assert(288u32 ^ 0x11Du32 == 61u32 && 488u32 ^ 0x11Du32 == 245u32 && 490u32 ^ 0x11Du32 == 247u32 && 494u32 ^ 0x11Du32 == 243u32 && 486u32 ^ 0x11Du32 == 251u32 && 502u32 ^ 0x11Du32 == 235u32 && 470u32 ^ 0x11Du32 == 203u32 && 406u32 ^ 0x11Du32 == 139u32 && 278u32 ^ 0x11Du32 == 11u32 && 352u32 ^ 0x11Du32 == 125u32 && 500u32 ^ 0x11Du32 == 233u32 && 466u32 ^ 0x11Du32 == 207u32 && 414u32 ^ 0x11Du32 == 131u32 && 262u32 ^ 0x11Du32 == 27u32 && 432u32 ^ 0x11Du32 == 173u32 && 346u32 ^ 0x11Du32 == 71u32) by (bit_vector);
    assert(pow_alpha(224) == 18);
    assert(pow_alpha(225) == 36);
    assert(pow_alpha(226) == 72);
    assert(pow_alpha(227) == 144);
    assert(pow_alpha(228) == 61);
    assert(pow_alpha(229) == 122);
    assert(pow_alpha(230) == 244);
    assert(pow_alpha(231) == 245);
    assert(pow_alpha(232) == 247);
    assert(pow_alpha(233) == 243);
    assert(pow_alpha(234) == 251);
    assert(pow_alpha(235) == 235);
    assert(pow_alpha(236) == 203);
    assert(pow_alpha(237) == 139);
    assert(pow_alpha(238) == 11);
    assert(pow_alpha(239) == 22);
    assert(pow_alpha(240) == 44);
    assert(pow_alpha(241) == 88);
    assert(pow_alpha(242) == 176);
    assert(pow_alpha(243) == 125);
    assert(pow_alpha(244) == 250);
    assert(pow_alpha(245) == 233);
    assert(pow_alpha(246) == 207);
    assert(pow_alpha(247) == 131);
    assert(pow_alpha(248) == 27);
    assert(pow_alpha(249) == 54);
    assert(pow_alpha(250) == 108);
    assert(pow_alpha(251) == 216);
    assert(pow_alpha(252) == 173);
    assert(pow_alpha(253) == 71);
    assert(pow_alpha(254) == 142);
}

pub(crate) proof fn lemma_pow_alpha_table()
    ensures
        forall|i: int| 0 <= i < 255 ==> pow_alpha(i as nat) == exp_lit(i),
{
    lemma_pow_vals_0();
    lemma_pow_vals_1();
    lemma_pow_vals_2();
    lemma_pow_vals_3();
    lemma_pow_vals_4();
    lemma_pow_vals_5();
    lemma_pow_vals_6();
    lemma_pow_vals_7();
    assert forall|i: int| 0 <= i < 255 implies pow_alpha(i as nat) == exp_lit(i) by {
        if i == 0 { assert(pow_alpha(i as nat) == 1); }
        else
        if i == 1 { assert(pow_alpha(i as nat) == 2); }
        else
        if i == 2 { assert(pow_alpha(i as nat) == 4); }
        else
        if i == 3 { assert(pow_alpha(i as nat) == 8); }
        else
        if i == 4 { assert(pow_alpha(i as nat) == 16); }
        else
        if i == 5 { assert(pow_alpha(i as nat) == 32); }
        else
        if i == 6 { assert(pow_alpha(i as nat) == 64); }
        else
        if i == 7 { assert(pow_alpha(i as nat) == 128); }
        else
        if i == 8 { assert(pow_alpha(i as nat) == 29); }
        else
        if i == 9 { assert(pow_alpha(i as nat) == 58); }
        else
        if i == 10 { assert(pow_alpha(i as nat) == 116); }
        else
        if i == 11 { assert(pow_alpha(i as nat) == 232); }
        else
        if i == 12 { assert(pow_alpha(i as nat) == 205); }
        else
        if i == 13 { assert(pow_alpha(i as nat) == 135); }
        else
        if i == 14 { assert(pow_alpha(i as nat) == 19); }
        else
        if i == 15 { assert(pow_alpha(i as nat) == 38); }
        else
        if i == 16 { assert(pow_alpha(i as nat) == 76); }
        else
        if i == 17 { assert(pow_alpha(i as nat) == 152); }
        else
        if i == 18 { assert(pow_alpha(i as nat) == 45); }
        else
        if i == 19 { assert(pow_alpha(i as nat) == 90); }
        else
        if i == 20 { assert(pow_alpha(i as nat) == 180); }
        else
        if i == 21 { assert(pow_alpha(i as nat) == 117); }
        else
        if i == 22 { assert(pow_alpha(i as nat) == 234); }
        else
        if i == 23 { assert(pow_alpha(i as nat) == 201); }
        else
        if i == 24 { assert(pow_alpha(i as nat) == 143); }
        else
        if i == 25 { assert(pow_alpha(i as nat) == 3); }
        else
        if i == 26 { assert(pow_alpha(i as nat) == 6); }
        else
        if i == 27 { assert(pow_alpha(i as nat) == 12); }
        else
        if i == 28 { assert(pow_alpha(i as nat) == 24); }
        else
        if i == 29 { assert(pow_alpha(i as nat) == 48); }
        else
        if i == 30 { assert(pow_alpha(i as nat) == 96); }
        else
        if i == 31 { assert(pow_alpha(i as nat) == 192); }
        else
        if i == 32 { assert(pow_alpha(i as nat) == 157); }
        else
        if i == 33 { assert(pow_alpha(i as nat) == 39); }
        else
        if i == 34 { assert(pow_alpha(i as nat) == 78); }
        else
        if i == 35 { assert(pow_alpha(i as nat) == 156); }
        else
        if i == 36 { assert(pow_alpha(i as nat) == 37); }
        else
        if i == 37 { assert(pow_alpha(i as nat) == 74); }
        else
        if i == 38 { assert(pow_alpha(i as nat) == 148); }
        else
        if i == 39 { assert(pow_alpha(i as nat) == 53); }
        else
        if i == 40 { assert(pow_alpha(i as nat) == 106); }
        else
        if i == 41 { assert(pow_alpha(i as nat) == 212); }
        else
        if i == 42 { assert(pow_alpha(i as nat) == 181); }
        else
        if i == 43 { assert(pow_alpha(i as nat) == 119); }
        else
        if i == 44 { assert(pow_alpha(i as nat) == 238); }
        else
        if i == 45 { assert(pow_alpha(i as nat) == 193); }
        else
        if i == 46 { assert(pow_alpha(i as nat) == 159); }
        else
        if i == 47 { assert(pow_alpha(i as nat) == 35); }
        else
        if i == 48 { assert(pow_alpha(i as nat) == 70); }
        else
        if i == 49 { assert(pow_alpha(i as nat) == 140); }
        else
        if i == 50 { assert(pow_alpha(i as nat) == 5); }
        else
        if i == 51 { assert(pow_alpha(i as nat) == 10); }
        else
        if i == 52 { assert(pow_alpha(i as nat) == 20); }
        else
        if i == 53 { assert(pow_alpha(i as nat) == 40); }
        else
        if i == 54 { assert(pow_alpha(i as nat) == 80); }
        else
        if i == 55 { assert(pow_alpha(i as nat) == 160); }
        else
        if i == 56 { assert(pow_alpha(i as nat) == 93); }
        else
        if i == 57 { assert(pow_alpha(i as nat) == 186); }
        else
        if i == 58 { assert(pow_alpha(i as nat) == 105); }
        else
        if i == 59 { assert(pow_alpha(i as nat) == 210); }
        else
        if i == 60 { assert(pow_alpha(i as nat) == 185); }
        else
        if i == 61 { assert(pow_alpha(i as nat) == 111); }
        else
        if i == 62 { assert(pow_alpha(i as nat) == 222); }
        else
        if i == 63 { assert(pow_alpha(i as nat) == 161); }
        else
        if i == 64 { assert(pow_alpha(i as nat) == 95); }
        else
        if i == 65 { assert(pow_alpha(i as nat) == 190); }
        else
        if i == 66 { assert(pow_alpha(i as nat) == 97); }
        else
        if i == 67 { assert(pow_alpha(i as nat) == 194); }
        else
        if i == 68 { assert(pow_alpha(i as nat) == 153); }
        else
        if i == 69 { assert(pow_alpha(i as nat) == 47); }
        else
        if i == 70 { assert(pow_alpha(i as nat) == 94); }
        else
        if i == 71 { assert(pow_alpha(i as nat) == 188); }
        else
        if i == 72 { assert(pow_alpha(i as nat) == 101); }
        else
        if i == 73 { assert(pow_alpha(i as nat) == 202); }
        else
        if i == 74 { assert(pow_alpha(i as nat) == 137); }
        else
        if i == 75 { assert(pow_alpha(i as nat) == 15); }
        else
        if i == 76 { assert(pow_alpha(i as nat) == 30); }
        else
        if i == 77 { assert(pow_alpha(i as nat) == 60); }
        else
        if i == 78 { assert(pow_alpha(i as nat) == 120); }
        else
        if i == 79 { assert(pow_alpha(i as nat) == 240); }
        else
        if i == 80 { assert(pow_alpha(i as nat) == 253); }
        else
        if i == 81 { assert(pow_alpha(i as nat) == 231); }
        else
        if i == 82 { assert(pow_alpha(i as nat) == 211); }
        else
        if i == 83 { assert(pow_alpha(i as nat) == 187); }
        else
        if i == 84 { assert(pow_alpha(i as nat) == 107); }
        else
        if i == 85 { assert(pow_alpha(i as nat) == 214); }
        else
        if i == 86 { assert(pow_alpha(i as nat) == 177); }
        else
        if i == 87 { assert(pow_alpha(i as nat) == 127); }
        else
        if i == 88 { assert(pow_alpha(i as nat) == 254); }
        else
        if i == 89 { assert(pow_alpha(i as nat) == 225); }
        else
        if i == 90 { assert(pow_alpha(i as nat) == 223); }
        else
        if i == 91 { assert(pow_alpha(i as nat) == 163); }
        else
        if i == 92 { assert(pow_alpha(i as nat) == 91); }
        else
        if i == 93 { assert(pow_alpha(i as nat) == 182); }
        else
        if i == 94 { assert(pow_alpha(i as nat) == 113); }
        else
        if i == 95 { assert(pow_alpha(i as nat) == 226); }
        else
        if i == 96 { assert(pow_alpha(i as nat) == 217); }
        else
        if i == 97 { assert(pow_alpha(i as nat) == 175); }
        else
        if i == 98 { assert(pow_alpha(i as nat) == 67); }
        else
        if i == 99 { assert(pow_alpha(i as nat) == 134); }
        else
        if i == 100 { assert(pow_alpha(i as nat) == 17); }
        else
        if i == 101 { assert(pow_alpha(i as nat) == 34); }
        else
        if i == 102 { assert(pow_alpha(i as nat) == 68); }
        else
        if i == 103 { assert(pow_alpha(i as nat) == 136); }
        else
        if i == 104 { assert(pow_alpha(i as nat) == 13); }
        else
        if i == 105 { assert(pow_alpha(i as nat) == 26); }
        else
        if i == 106 { assert(pow_alpha(i as nat) == 52); }
        else
        if i == 107 { assert(pow_alpha(i as nat) == 104); }
        else
        if i == 108 { assert(pow_alpha(i as nat) == 208); }
        else
        if i == 109 { assert(pow_alpha(i as nat) == 189); }
        else
        if i == 110 { assert(pow_alpha(i as nat) == 103); }
        else
        if i == 111 { assert(pow_alpha(i as nat) == 206); }
        else
        if i == 112 { assert(pow_alpha(i as nat) == 129); }
        else
        if i == 113 { assert(pow_alpha(i as nat) == 31); }
        else
        if i == 114 { assert(pow_alpha(i as nat) == 62); }
        else
        if i == 115 { assert(pow_alpha(i as nat) == 124); }
        else
        if i == 116 { assert(pow_alpha(i as nat) == 248); }
        else
        if i == 117 { assert(pow_alpha(i as nat) == 237); }
        else
        if i == 118 { assert(pow_alpha(i as nat) == 199); }
        else
        if i == 119 { assert(pow_alpha(i as nat) == 147); }
        else
        if i == 120 { assert(pow_alpha(i as nat) == 59); }
        else
        if i == 121 { assert(pow_alpha(i as nat) == 118); }
        else
        if i == 122 { assert(pow_alpha(i as nat) == 236); }
        else
        if i == 123 { assert(pow_alpha(i as nat) == 197); }
        else
        if i == 124 { assert(pow_alpha(i as nat) == 151); }
        else
        if i == 125 { assert(pow_alpha(i as nat) == 51); }
        else
        if i == 126 { assert(pow_alpha(i as nat) == 102); }
        else
        if i == 127 { assert(pow_alpha(i as nat) == 204); }
        else
        if i == 128 { assert(pow_alpha(i as nat) == 133); }
        else
        if i == 129 { assert(pow_alpha(i as nat) == 23); }
        else
        if i == 130 { assert(pow_alpha(i as nat) == 46); }
        else
        if i == 131 { assert(pow_alpha(i as nat) == 92); }
        else
        if i == 132 { assert(pow_alpha(i as nat) == 184); }
        else
        if i == 133 { assert(pow_alpha(i as nat) == 109); }
        else
        if i == 134 { assert(pow_alpha(i as nat) == 218); }
        else
        if i == 135 { assert(pow_alpha(i as nat) == 169); }
        else
        if i == 136 { assert(pow_alpha(i as nat) == 79); }
        else
        if i == 137 { assert(pow_alpha(i as nat) == 158); }
        else
        if i == 138 { assert(pow_alpha(i as nat) == 33); }
        else
        if i == 139 { assert(pow_alpha(i as nat) == 66); }
        else
        if i == 140 { assert(pow_alpha(i as nat) == 132); }
        else
        if i == 141 { assert(pow_alpha(i as nat) == 21); }
        else
        if i == 142 { assert(pow_alpha(i as nat) == 42); }
        else
        if i == 143 { assert(pow_alpha(i as nat) == 84); }
        else
        if i == 144 { assert(pow_alpha(i as nat) == 168); }
        else
        if i == 145 { assert(pow_alpha(i as nat) == 77); }
        else
        if i == 146 { assert(pow_alpha(i as nat) == 154); }
        else
        if i == 147 { assert(pow_alpha(i as nat) == 41); }
        else
        if i == 148 { assert(pow_alpha(i as nat) == 82); }
        else
        if i == 149 { assert(pow_alpha(i as nat) == 164); }
        else
        if i == 150 { assert(pow_alpha(i as nat) == 85); }
        else
        if i == 151 { assert(pow_alpha(i as nat) == 170); }
        else
        if i == 152 { assert(pow_alpha(i as nat) == 73); }
        else
        if i == 153 { assert(pow_alpha(i as nat) == 146); }
        else
        if i == 154 { assert(pow_alpha(i as nat) == 57); }
        else
        if i == 155 { assert(pow_alpha(i as nat) == 114); }
        else
        if i == 156 { assert(pow_alpha(i as nat) == 228); }
        else
        if i == 157 { assert(pow_alpha(i as nat) == 213); }
        else
        if i == 158 { assert(pow_alpha(i as nat) == 183); }
        else
        if i == 159 { assert(pow_alpha(i as nat) == 115); }
        else
        if i == 160 { assert(pow_alpha(i as nat) == 230); }
        else
        if i == 161 { assert(pow_alpha(i as nat) == 209); }
        else
        if i == 162 { assert(pow_alpha(i as nat) == 191); }
        else
        if i == 163 { assert(pow_alpha(i as nat) == 99); }
        else
        if i == 164 { assert(pow_alpha(i as nat) == 198); }
        else
        if i == 165 { assert(pow_alpha(i as nat) == 145); }
        else
        if i == 166 { assert(pow_alpha(i as nat) == 63); }
        else
        if i == 167 { assert(pow_alpha(i as nat) == 126); }
        else
        if i == 168 { assert(pow_alpha(i as nat) == 252); }
        else
        if i == 169 { assert(pow_alpha(i as nat) == 229); }
        else
        if i == 170 { assert(pow_alpha(i as nat) == 215); }
        else
        if i == 171 { assert(pow_alpha(i as nat) == 179); }
        else
        if i == 172 { assert(pow_alpha(i as nat) == 123); }
        else
        if i == 173 { assert(pow_alpha(i as nat) == 246); }
        else
        if i == 174 { assert(pow_alpha(i as nat) == 241); }
        else
        if i == 175 { assert(pow_alpha(i as nat) == 255); }
        else
        if i == 176 { assert(pow_alpha(i as nat) == 227); }
        else
        if i == 177 { assert(pow_alpha(i as nat) == 219); }
        else
        if i == 178 { assert(pow_alpha(i as nat) == 171); }
        else
        if i == 179 { assert(pow_alpha(i as nat) == 75); }
        else
        if i == 180 { assert(pow_alpha(i as nat) == 150); }
        else
        if i == 181 { assert(pow_alpha(i as nat) == 49); }
        else
        if i == 182 { assert(pow_alpha(i as nat) == 98); }
        else
        if i == 183 { assert(pow_alpha(i as nat) == 196); }
        else
        if i == 184 { assert(pow_alpha(i as nat) == 149); }
        else
        if i == 185 { assert(pow_alpha(i as nat) == 55); }
        else
        if i == 186 { assert(pow_alpha(i as nat) == 110); }
        else
        if i == 187 { assert(pow_alpha(i as nat) == 220); }
        else
        if i == 188 { assert(pow_alpha(i as nat) == 165); }
        else
        if i == 189 { assert(pow_alpha(i as nat) == 87); }
        else
        if i == 190 { assert(pow_alpha(i as nat) == 174); }
        else
        if i == 191 { assert(pow_alpha(i as nat) == 65); }
        else
        if i == 192 { assert(pow_alpha(i as nat) == 130); }
        else
        if i == 193 { assert(pow_alpha(i as nat) == 25); }
        else
        if i == 194 { assert(pow_alpha(i as nat) == 50); }
        else
        if i == 195 { assert(pow_alpha(i as nat) == 100); }
        else
        if i == 196 { assert(pow_alpha(i as nat) == 200); }
        else
        if i == 197 { assert(pow_alpha(i as nat) == 141); }
        else
        if i == 198 { assert(pow_alpha(i as nat) == 7); }
        else
        if i == 199 { assert(pow_alpha(i as nat) == 14); }
        else
        if i == 200 { assert(pow_alpha(i as nat) == 28); }
        else
        if i == 201 { assert(pow_alpha(i as nat) == 56); }
        else
        if i == 202 { assert(pow_alpha(i as nat) == 112); }
        else
        if i == 203 { assert(pow_alpha(i as nat) == 224); }
        else
        if i == 204 { assert(pow_alpha(i as nat) == 221); }
        else
        if i == 205 { assert(pow_alpha(i as nat) == 167); }
        else
        if i == 206 { assert(pow_alpha(i as nat) == 83); }
        else
        if i == 207 { assert(pow_alpha(i as nat) == 166); }
        else
        if i == 208 { assert(pow_alpha(i as nat) == 81); }
        else
        if i == 209 { assert(pow_alpha(i as nat) == 162); }
        else
        if i == 210 { assert(pow_alpha(i as nat) == 89); }
        else
        if i == 211 { assert(pow_alpha(i as nat) == 178); }
        else
        if i == 212 { assert(pow_alpha(i as nat) == 121); }
        else
        if i == 213 { assert(pow_alpha(i as nat) == 242); }
        else
        if i == 214 { assert(pow_alpha(i as nat) == 249); }
        else
        if i == 215 { assert(pow_alpha(i as nat) == 239); }
        else
        if i == 216 { assert(pow_alpha(i as nat) == 195); }
        else
        if i == 217 { assert(pow_alpha(i as nat) == 155); }
        else
        if i == 218 { assert(pow_alpha(i as nat) == 43); }
        else
        if i == 219 { assert(pow_alpha(i as nat) == 86); }
        else
        if i == 220 { assert(pow_alpha(i as nat) == 172); }
        else
        if i == 221 { assert(pow_alpha(i as nat) == 69); }
        else
        if i == 222 { assert(pow_alpha(i as nat) == 138); }
        else
        if i == 223 { assert(pow_alpha(i as nat) == 9); }
        else
        if i == 224 { assert(pow_alpha(i as nat) == 18); }
        else
        if i == 225 { assert(pow_alpha(i as nat) == 36); }
        else
        if i == 226 { assert(pow_alpha(i as nat) == 72); }
        else
        if i == 227 { assert(pow_alpha(i as nat) == 144); }
        else
        if i == 228 { assert(pow_alpha(i as nat) == 61); }
        else
        if i == 229 { assert(pow_alpha(i as nat) == 122); }
        else
        if i == 230 { assert(pow_alpha(i as nat) == 244); }
        else
        if i == 231 { assert(pow_alpha(i as nat) == 245); }
        else
        if i == 232 { assert(pow_alpha(i as nat) == 247); }
        else
        if i == 233 { assert(pow_alpha(i as nat) == 243); }
        else
        if i == 234 { assert(pow_alpha(i as nat) == 251); }
        else
        if i == 235 { assert(pow_alpha(i as nat) == 235); }
        else
        if i == 236 { assert(pow_alpha(i as nat) == 203); }
        else
        if i == 237 { assert(pow_alpha(i as nat) == 139); }
        else
        if i == 238 { assert(pow_alpha(i as nat) == 11); }
        else
        if i == 239 { assert(pow_alpha(i as nat) == 22); }
        else
        if i == 240 { assert(pow_alpha(i as nat) == 44); }
        else
        if i == 241 { assert(pow_alpha(i as nat) == 88); }
        else
        if i == 242 { assert(pow_alpha(i as nat) == 176); }
        else
        if i == 243 { assert(pow_alpha(i as nat) == 125); }
        else
        if i == 244 { assert(pow_alpha(i as nat) == 250); }
        else
        if i == 245 { assert(pow_alpha(i as nat) == 233); }
        else
        if i == 246 { assert(pow_alpha(i as nat) == 207); }
        else
        if i == 247 { assert(pow_alpha(i as nat) == 131); }
        else
        if i == 248 { assert(pow_alpha(i as nat) == 27); }
        else
        if i == 249 { assert(pow_alpha(i as nat) == 54); }
        else
        if i == 250 { assert(pow_alpha(i as nat) == 108); }
        else
        if i == 251 { assert(pow_alpha(i as nat) == 216); }
        else
        if i == 252 { assert(pow_alpha(i as nat) == 173); }
        else
        if i == 253 { assert(pow_alpha(i as nat) == 71); }
        else
        if i == 254 { assert(pow_alpha(i as nat) == 142); }
    }
}

pub(crate) proof fn lemma_log_exp_lit()
    ensures
        forall|i: int| 0 <= i < 255 ==> 1 <= #[trigger] exp_lit(i) <= 255 && log_lit(exp_lit(i)) == i,
{
}

pub(crate) proof fn lemma_exp_log_lit()
    ensures
        forall|v: int| 1 <= v <= 255 ==> 0 <= #[trigger] log_lit(v) < 255 && exp_lit(log_lit(v)) == v,
{
}

} // verus!
